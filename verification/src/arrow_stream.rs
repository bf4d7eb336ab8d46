//! Handing results over: as an Arrow C Data Interface stream, or as Arrow-IPC bytes.
//!
//! A stream and an IPC encoding hold the same things: the columns of a schema, and for each batch
//! the cells of its columns.

use std::sync::Arc;

use vstd::prelude::*;

use crate::columnar::{
    batch_cells, batch_columns, batch_message, batch_schema, Cell, ColumnDef, DataKind,
    empty_schema,
    schema_columns, schema_message, Batch,
};

verus! {

/// An Arrow C Data Interface stream.
#[verifier::external_type_specification]
#[verifier::external_body]
pub struct ExArrayStream(arrow::ffi_stream::FFI_ArrowArrayStream);

/// A writer of Arrow-IPC stream bytes.
#[verifier::external_type_specification]
#[verifier::external_body]
#[verifier::reject_recursive_types(W)]
pub struct ExStreamWriter<W>(arrow::ipc::writer::StreamWriter<W>);

/// The columns that a stream advertises, in order.
pub uninterp spec fn stream_columns(s: arrow::ffi_stream::FFI_ArrowArrayStream) -> Seq<ColumnDef>;

/// The batches that a stream yields, in order: for each the cells of its columns.
pub uninterp spec fn stream_cells(s: arrow::ffi_stream::FFI_ArrowArrayStream) -> Seq<
    Seq<Seq<Cell>>,
>;

/// What a batch holds: the columns that its schema lists, and for each its cells.
#[verifier::ext_equal]
pub struct Contents {
    pub columns: Seq<ColumnDef>,
    pub cells: Seq<Seq<Cell>>,
}

/// What a batch holds.
pub open spec fn contents(b: Batch) -> Contents {
    Contents { columns: batch_columns(b), cells: batch_cells(b) }
}

/// The columns of the schema that an IPC writer has written.
pub uninterp spec fn writer_columns(w: arrow::ipc::writer::StreamWriter<Vec<u8>>) -> Seq<ColumnDef>;

/// What the batches hold that an IPC writer has written, in order.
pub uninterp spec fn writer_batches(w: arrow::ipc::writer::StreamWriter<Vec<u8>>) -> Seq<Contents>;

/// The columns that Arrow-IPC stream bytes describe. A reader may still refuse bytes whose metadata
/// is larger or nested deeper than it accepts.
pub uninterp spec fn ipc_columns(bytes: Seq<u8>) -> Seq<ColumnDef>;

/// The batches that Arrow-IPC stream bytes hold, in order: for each the cells of its columns.
pub uninterp spec fn ipc_cells(bytes: Seq<u8>) -> Seq<Seq<Seq<Cell>>>;

/// The cells of each batch.
pub open spec fn batches_cells(batches: Seq<Batch>) -> Seq<Seq<Seq<Cell>>> {
    batches.map_values(|b: Batch| batch_cells(b))
}

/// The columns of a result whose schema is not supplied: those of its first batch, none where there
/// is no batch.
pub open spec fn inferred_columns(batches: Seq<Batch>) -> Seq<ColumnDef> {
    if batches.len() == 0 {
        Seq::empty()
    } else {
        batch_columns(batches[0])
    }
}

/// How many dictionaries the columns hold together.
pub open spec fn dictionaries(columns: Seq<ColumnDef>) -> nat
    decreases columns.len(),
{
    if columns.len() == 0 {
        0
    } else {
        dictionaries(columns.drop_last()) + columns.last().kind.dictionaries()
    }
}

/// A schema of these columns announces as many dictionaries as each batch holds.
pub open spec fn announces(columns: Seq<ColumnDef>, batches: Seq<Batch>) -> bool {
    forall|i: int|
        0 <= i < batches.len() ==> dictionaries(batch_columns(#[trigger] batches[i]))
            <= dictionaries(columns)
}

/// An IPC stream can spell the schema and the batches: the length of each message fits the 32 bits
/// that a stream has for it.
pub open spec fn fits_stream(schema: arrow::datatypes::Schema, batches: Seq<Batch>) -> bool {
    &&& schema_message(schema) <= i32::MAX
    &&& forall|i: int| 0 <= i < batches.len() ==> batch_message(#[trigger] batches[i]) <= i32::MAX
}

/// The columns describe what the batch holds: as many columns, of the same types, and without a
/// null where they allow none. The names and what else the columns of the batch allow may differ.
pub open spec fn describes(columns: Seq<ColumnDef>, b: Contents) -> bool {
    &&& b.columns.len() == columns.len()
    &&& b.cells.len() == columns.len()
    &&& forall|i: int| 0 <= i < columns.len() ==> (#[trigger] b.columns[i]).kind == columns[i].kind
    &&& forall|i: int|
        0 <= i < columns.len() && !(#[trigger] columns[i]).nullable ==> !b.cells[i].contains(
            Cell::Null,
        )
}

/// Arrow-IPC bytes hold the type of every column exactly.
pub open spec fn exact_columns(columns: Seq<ColumnDef>) -> bool {
    forall|i: int| 0 <= i < columns.len() ==> (#[trigger] columns[i]).kind.exact()
}

/// Batches written under a schema of these columns can be read back as they are: Arrow-IPC bytes
/// hold every type exactly, and the columns describe every batch.
pub open spec fn readable(columns: Seq<ColumnDef>, batches: Seq<Contents>) -> bool {
    &&& exact_columns(columns)
    &&& forall|i: int| 0 <= i < batches.len() ==> describes(columns, #[trigger] batches[i])
}

/// What each batch holds.
pub open spec fn all_contents(batches: Seq<Batch>) -> Seq<Contents> {
    batches.map_values(|b: Batch| contents(b))
}

/// The cells of each batch.
pub open spec fn contents_cells(batches: Seq<Contents>) -> Seq<Seq<Seq<Cell>>> {
    batches.map_values(|b: Contents| b.cells)
}

/// The bytes are the Arrow-IPC form of the batches under a schema of the columns: they are never
/// empty, they describe the columns whatever the batches are, and the batches that can be read back
/// from them are those that were written.
pub open spec fn encodes_stream(
    columns: Seq<ColumnDef>,
    batches: Seq<Batch>,
    bytes: Seq<u8>,
) -> bool {
    &&& bytes.len() > 0
    &&& exact_columns(columns) ==> ipc_columns(bytes) == columns
    &&& readable(columns, all_contents(batches)) ==> ipc_cells(bytes) == batches_cells(batches)
}

/// The stream advertises the columns and yields the batches.
pub open spec fn streams(
    s: arrow::ffi_stream::FFI_ArrowArrayStream,
    columns: Seq<ColumnDef>,
    cells: Seq<Seq<Seq<Cell>>>,
) -> bool {
    stream_columns(s) == columns && stream_cells(s) == cells
}

/// `FFI_ArrowArrayStream::new` over a `RecordBatchIterator` advertises the schema that it is given
/// and yields the batches, in order.
#[verifier::external_body]
fn new_stream(
    schema: Arc<arrow::datatypes::Schema>,
    batches: Vec<Batch>,
) -> (s: arrow::ffi_stream::FFI_ArrowArrayStream)
    ensures
        stream_columns(s) == schema_columns(*schema),
        stream_cells(s) == batches_cells(batches@),
{
    let batches = batches.into_iter().map(|b| Ok::<_, arrow::error::ArrowError>(b.inner));
    let reader = arrow::array::RecordBatchIterator::new(batches, schema);
    arrow::ffi_stream::FFI_ArrowArrayStream::new(Box::new(reader))
}

/// `StreamWriter::try_new` over a byte vector, which never refuses a write, writes the schema. It
/// panics on a schema with a text or a list that takes more than two gigabytes, and the length of a
/// longer message does not fit the stream, so the message is to fit.
#[verifier::external_body]
fn new_writer(
    schema: &Arc<arrow::datatypes::Schema>,
) -> (r: Result<arrow::ipc::writer::StreamWriter<Vec<u8>>, arrow::error::ArrowError>)
    requires
        schema_message(**schema) <= i32::MAX,
    ensures
        r is Ok,
        r matches Ok(w) ==> writer_columns(w) == schema_columns(**schema),
        r matches Ok(w) ==> writer_batches(w).len() == 0,
{
    arrow::ipc::writer::StreamWriter::try_new(Vec::new(), schema)
}

/// `StreamWriter::write` over a byte vector appends a batch, whether or not the schema describes
/// it. It panics on a batch that holds more dictionaries than the schema announces, or so many
/// buffers that their list takes more than two gigabytes.
#[verifier::external_body]
fn write_ipc(
    w: &mut arrow::ipc::writer::StreamWriter<Vec<u8>>,
    b: &Batch,
) -> (r: Result<(), arrow::error::ArrowError>)
    requires
        dictionaries(batch_columns(*b)) <= dictionaries(writer_columns(*old(w))),
        batch_message(*b) <= i32::MAX,
    ensures
        r is Ok,
        writer_columns(*final(w)) == writer_columns(*old(w)),
        writer_batches(*final(w)) == writer_batches(*old(w)).push(contents(*b)),
{
    w.write(&b.inner)
}

/// `StreamWriter::into_inner` ends the stream and hands out its bytes, of which there is at least
/// the schema. They describe the columns of the schema where they hold its types exactly, and hold
/// the batches that were written where the schema describes those too; what they hold otherwise is
/// left open.
#[verifier::external_body]
fn ipc_bytes(
    w: arrow::ipc::writer::StreamWriter<Vec<u8>>,
) -> (r: Result<Vec<u8>, arrow::error::ArrowError>)
    ensures
        r is Ok,
        r matches Ok(bytes) ==> bytes@.len() > 0,
        r matches Ok(bytes) ==> (exact_columns(writer_columns(w)) ==> ipc_columns(bytes@)
            == writer_columns(w)),
        r matches Ok(bytes) ==> (readable(writer_columns(w), writer_batches(w)) ==> ipc_cells(
            bytes@,
        ) == contents_cells(writer_batches(w))),
{
    w.into_inner()
}

/// How many of the flags are set.
pub open spec fn count_set(flags: Seq<bool>) -> nat
    decreases flags.len(),
{
    if flags.len() == 0 {
        0
    } else {
        count_set(flags.drop_last()) + (if flags.last() {
            1nat
        } else {
            0
        })
    }
}

/// `Schema::flattened_fields` lists every field of the schema, nested ones counted; a flag for each
/// says whether it is a dictionary.
#[verifier::external_body]
fn dictionary_flags(schema: &arrow::datatypes::Schema) -> (flags: Vec<bool>)
    ensures
        count_set(flags@) == dictionaries(schema_columns(*schema)),
{
    let fields = schema.flattened_fields().into_iter();
    fields.map(|f| matches!(f.data_type(), arrow::datatypes::DataType::Dictionary(_, _))).collect()
}

/// How many dictionaries the schema announces.
fn dictionary_count(schema: &arrow::datatypes::Schema) -> (n: usize)
    ensures
        n == dictionaries(schema_columns(*schema)),
{
    let flags = dictionary_flags(schema);
    let mut n: usize = 0;
    for i in 0..flags.len()
        invariant
            n == count_set(flags@.take(i as int)),
            n <= i,
    {
        assert(flags@.take(i + 1).drop_last() =~= flags@.take(i as int));
        if flags[i] {
            n = n + 1;
        }
    }
    assert(flags@.take(flags@.len() as int) =~= flags@);
    n
}

/// Whether the schema announces as many dictionaries as each batch holds.
pub fn is_announced(schema: &arrow::datatypes::Schema, batches: &Vec<Batch>) -> (r: bool)
    ensures
        r == announces(schema_columns(*schema), batches@),
{
    let announced = dictionary_count(schema);
    for i in 0..batches.len()
        invariant
            announced == dictionaries(schema_columns(*schema)),
            forall|j: int|
                0 <= j < i ==> dictionaries(batch_columns(#[trigger] batches@[j])) <= announced,
    {
        let own = batch_schema(&batches[i]);
        if dictionary_count(&own) > announced {
            assert(dictionaries(batch_columns(batches@[i as int])) > announced);
            return false;
        }
    }
    true
}

/// Build an owned stream over the batches. It advertises the columns even when there is no batch.
pub fn export_batches(
    schema: Arc<arrow::datatypes::Schema>,
    batches: Vec<Batch>,
) -> (s: arrow::ffi_stream::FFI_ArrowArrayStream)
    ensures
        streams(s, schema_columns(*schema), batches_cells(batches@)),
{
    new_stream(schema, batches)
}

/// Build an owned stream over batches whose schema is not supplied.
pub fn export_batches_infer(
    batches: Vec<Batch>,
) -> (s: arrow::ffi_stream::FFI_ArrowArrayStream)
    ensures
        streams(s, inferred_columns(batches@), batches_cells(batches@)),
{
    let schema = if batches.len() > 0 {
        batch_schema(&batches[0])
    } else {
        empty_schema()
    };
    export_batches(schema, batches)
}

/// Encode a result as Arrow-IPC stream bytes. The columns are written even when there is no batch.
pub fn encode_ipc(
    schema: Arc<arrow::datatypes::Schema>,
    batches: Vec<Batch>,
) -> (r: Result<Vec<u8>, arrow::error::ArrowError>)
    requires
        announces(schema_columns(*schema), batches@),
        fits_stream(*schema, batches@),
    ensures
        r matches Ok(bytes) && encodes_stream(schema_columns(*schema), batches@, bytes@),
{
    let mut writer = match new_writer(&schema) {
        Ok(w) => w,
        Err(e) => return Err(e),
    };
    for i in 0..batches.len()
        invariant
            announces(schema_columns(*schema), batches@),
            fits_stream(*schema, batches@),
            writer_columns(writer) == schema_columns(*schema),
            writer_batches(writer) == all_contents(batches@.take(i as int)),
    {
        match write_ipc(&mut writer, &batches[i]) {
            Ok(()) => {},
            Err(e) => return Err(e),
        }
        assert(all_contents(batches@.take(i + 1)) =~= all_contents(batches@.take(i as int)).push(
            contents(batches@[i as int]),
        ));
    }
    assert(batches@.take(batches@.len() as int) =~= batches@);
    assert(contents_cells(all_contents(batches@)) =~= batches_cells(batches@));
    ipc_bytes(writer)
}

/// A stream yields every batch it is given, in order, under the schema it is given. Where none is
/// given, the schema is that of the first batch, and without a batch it has no columns.
pub proof fn streams_yield_every_batch(
    schema: Arc<arrow::datatypes::Schema>,
    batches: Vec<Batch>,
    given: arrow::ffi_stream::FFI_ArrowArrayStream,
    inferred: arrow::ffi_stream::FFI_ArrowArrayStream,
)
    requires
        call_ensures(export_batches, (schema, batches), given),
        call_ensures(export_batches_infer, (batches,), inferred),
    ensures
        stream_columns(given) == schema_columns(*schema),
        stream_cells(given).len() == batches@.len(),
        stream_cells(inferred).len() == batches@.len(),
        forall|i: int|
            0 <= i < batches@.len() ==> #[trigger] stream_cells(given)[i] == batch_cells(
                batches@[i],
            ),
        forall|i: int|
            0 <= i < batches@.len() ==> #[trigger] stream_cells(inferred)[i] == batch_cells(
                batches@[i],
            ),
        batches@.len() > 0 ==> stream_columns(inferred) == batch_columns(batches@[0]),
        batches@.len() == 0 ==> stream_columns(inferred).len() == 0,
{
}

/// Columns of the same types hold the same number of dictionaries.
proof fn lemma_dictionaries_follow_the_types(a: Seq<ColumnDef>, b: Seq<ColumnDef>)
    requires
        a.len() == b.len(),
        forall|i: int| 0 <= i < a.len() ==> (#[trigger] a[i]).kind == b[i].kind,
    ensures
        dictionaries(a) == dictionaries(b),
    decreases a.len(),
{
    if a.len() > 0 {
        assert forall|i: int| 0 <= i < a.drop_last().len() implies (
        #[trigger] a.drop_last()[i]).kind == b.drop_last()[i].kind by {
            assert(a.drop_last()[i] == a[i]);
        }
        lemma_dictionaries_follow_the_types(a.drop_last(), b.drop_last());
        assert(a[a.len() - 1].kind == b[a.len() - 1].kind);
    }
}

/// Columns hold the dictionaries of each of them together, and those of the library's own types
/// none.
pub proof fn dictionaries_add_up(a: Seq<ColumnDef>, b: Seq<ColumnDef>, c: ColumnDef)
    ensures
        dictionaries(a + b) == dictionaries(a) + dictionaries(b),
        c.kind is Known ==> dictionaries(seq![c]) == 0,
        c.kind matches DataKind::Other(t) ==> dictionaries(seq![c]) == t.dictionaries,
        dictionaries(Seq::empty()) == 0,
    decreases b.len(),
{
    reveal_with_fuel(dictionaries, 2);
    assert(seq![c].drop_last() =~= Seq::<ColumnDef>::empty());
    assert(seq![c].last() == c);
    if b.len() == 0 {
        assert(a + b =~= a);
    } else {
        dictionaries_add_up(a, b.drop_last(), c);
        assert((a + b).drop_last() =~= a + b.drop_last());
    }
}

/// The columns are of types that Arrow-IPC bytes hold exactly, and every batch has columns of just
/// those types and no null where the columns allow none.
pub open spec fn fit_together(columns: Seq<ColumnDef>, batches: Seq<Batch>) -> bool {
    &&& forall|k: int|
        0 <= k < columns.len() ==> match (#[trigger] columns[k]).kind {
            DataKind::Known(_) => true,
            DataKind::Other(t) => t.exact,
        }
    &&& forall|i: int|
        0 <= i < batches.len() ==> {
            &&& batch_columns(#[trigger] batches[i]).len() == columns.len()
            &&& batch_cells(batches[i]).len() == columns.len()
        }
    &&& forall|i: int, k: int|
        0 <= i < batches.len() && 0 <= k < columns.len() ==> (#[trigger] batch_columns(
            batches[i],
        )[k]).kind == columns[k].kind
    &&& forall|i: int, k: int, r: int|
        0 <= i < batches.len() && 0 <= k < columns.len() && !columns[k].nullable && 0 <= r
            < batch_cells(batches[i])[k].len() ==> !(#[trigger] batch_cells(batches[i])[k][r]
            is Null)
}

/// What fits together is announced, and can be read back.
pub proof fn what_fits_together_is_readable(columns: Seq<ColumnDef>, batches: Seq<Batch>)
    requires
        fit_together(columns, batches),
    ensures
        announces(columns, batches),
        readable(columns, all_contents(batches)),
        exact_columns(columns),
{
    assert forall|i: int| 0 <= i < batches.len() implies dictionaries(
        batch_columns(#[trigger] batches[i]),
    ) <= dictionaries(columns) by {
        lemma_dictionaries_follow_the_types(batch_columns(batches[i]), columns);
    }
    assert forall|i: int| 0 <= i < all_contents(batches).len() implies describes(
        columns,
        #[trigger] all_contents(batches)[i],
    ) by {
        let b = batches[i];
        assert(all_contents(batches)[i] == contents(b));
        assert forall|k: int| 0 <= k < columns.len() && !(
        #[trigger] columns[k]).nullable implies !batch_cells(b)[k].contains(Cell::Null) by {
            if batch_cells(b)[k].contains(Cell::Null) {
                let r = choose|r: int|
                    0 <= r < batch_cells(b)[k].len() && batch_cells(b)[k][r] == Cell::Null;
                assert(batch_cells(batches[i])[k][r] is Null);
            }
        }
    }
}

/// The Arrow-IPC form of batches under a schema that fits them holds that schema and every one of
/// the batches, in order. It is never empty.
pub proof fn encoded_streams_hold_every_batch(
    schema: Arc<arrow::datatypes::Schema>,
    columns: Seq<ColumnDef>,
    batches: Vec<Batch>,
    r: Result<Vec<u8>, arrow::error::ArrowError>,
)
    requires
        columns == schema_columns(*schema),
        fit_together(columns, batches@),
        call_ensures(encode_ipc, (schema, batches), r),
    ensures
        r is Ok,
        r matches Ok(bytes) ==> {
            &&& bytes@.len() > 0
            &&& ipc_columns(bytes@) == columns
            &&& ipc_cells(bytes@).len() == batches@.len()
            &&& forall|i: int|
                0 <= i < batches@.len() ==> #[trigger] ipc_cells(bytes@)[i] == batch_cells(
                    batches@[i],
                )
        },
{
    what_fits_together_is_readable(columns, batches@);
}

/// A schema announces the dictionaries of the batches exactly when no batch has more of them than
/// it.
pub proof fn dictionaries_are_announced_or_not(
    schema: &arrow::datatypes::Schema,
    batches: &Vec<Batch>,
    announced: bool,
)
    requires
        call_ensures(is_announced, (schema, batches), announced),
    ensures
        announced <==> (forall|i: int|
            0 <= i < batches@.len() ==> dictionaries(batch_columns(#[trigger] batches@[i]))
                <= dictionaries(schema_columns(*schema))),
{
}

/// Columns are exact exactly when each of them is of a type that this library builds or of another
/// one that the format holds exactly.
pub proof fn exact_columns_are_exact_one_by_one(columns: Seq<ColumnDef>)
    ensures
        exact_columns(columns) <==> (forall|k: int|
            0 <= k < columns.len() ==> match (#[trigger] columns[k]).kind {
                DataKind::Known(_) => true,
                DataKind::Other(t) => t.exact,
            }),
{
}

} // verus!
