//! Arrow columns, schemas and record batches.
//!
//! Arrow does the work; this module says what its values hold. A schema is a sequence of
//! [`ColumnDef`]s, a column a sequence of [`Cell`]s, a batch a sequence of columns of one length.

use std::sync::Arc;

use vstd::prelude::*;
use vstd::utf8::encode_utf8;

use crate::error::CallError;
use crate::text::joined;

verus! {

/// A schema of Arrow.
#[verifier::external_type_specification]
#[verifier::external_body]
pub struct ExSchema(arrow::datatypes::Schema);

/// One column of an Arrow schema.
#[verifier::external_type_specification]
#[verifier::external_body]
pub struct ExField(arrow::datatypes::Field);

/// The values of one Arrow column.
#[verifier::external_type_specification]
#[verifier::external_body]
pub struct ExArrayData(arrow::array::ArrayData);

/// A failure of Arrow.
#[verifier::external_type_specification]
#[verifier::external_body]
pub struct ExArrowError(arrow::error::ArrowError);

/// An Arrow `RecordBatch`.
#[verifier::external_body]
pub struct Batch {
    pub inner: arrow::record_batch::RecordBatch,
}

/// The type of a column that this library builds.
#[derive(Debug, Clone, Copy, PartialEq, Eq, Structural)]
pub enum ColumnType {
    Utf8,
    Int64,
    Float64,
    Boolean,
}

/// The type of a column that this library does not build.
#[verifier::ext_equal]
pub struct OtherType {
    /// The name of the type, by which it is told apart.
    pub name: Seq<char>,
    /// How many of its fields, nested ones and the column itself counted, are dictionaries.
    pub dictionaries: nat,
    /// Whether Arrow-IPC bytes spell the type, and hold all of its values, exactly. This is a fact
    /// about Arrow that is left open here for each type. Among the types for which they do not are
    /// those with a time zone that is empty, a dictionary of dictionaries, a `Time32` finer than a
    /// millisecond, a `Time64` coarser than a microsecond, run-end-encoded values (a slice of none
    /// of them is lost) and lists of unions (slices of them are); there may be more.
    pub exact: bool,
}

/// The type of any column.
#[verifier::ext_equal]
pub enum DataKind {
    Known(ColumnType),
    Other(OtherType),
}

impl DataKind {
    /// How many dictionaries a column of the type holds.
    pub open spec fn dictionaries(self) -> nat {
        match self {
            DataKind::Known(_) => 0,
            DataKind::Other(t) => t.dictionaries,
        }
    }

    /// Whether Arrow-IPC bytes spell the type and hold its values exactly. They do for every type
    /// that this library builds.
    pub open spec fn exact(self) -> bool {
        match self {
            DataKind::Known(_) => true,
            DataKind::Other(t) => t.exact,
        }
    }
}

/// What a schema says of a column.
#[verifier::ext_equal]
pub struct ColumnDef {
    pub name: Seq<char>,
    pub kind: DataKind,
    pub nullable: bool,
}

/// One value of a column. A floating-point value is held by its IEEE-754 bits.
#[verifier::ext_equal]
pub enum Cell {
    Null,
    Utf8(Seq<char>),
    Int64(i64),
    Float64(u64),
    Boolean(bool),
    Other(Seq<u8>),
}

/// What an Arrow `Field` says of its column.
pub uninterp spec fn field_column(f: arrow::datatypes::Field) -> ColumnDef;

/// The columns of an Arrow `Schema`, in order.
pub uninterp spec fn schema_columns(s: arrow::datatypes::Schema) -> Seq<ColumnDef>;

/// The type of the values of an Arrow column.
pub uninterp spec fn array_kind(a: arrow::array::ArrayData) -> DataKind;

/// The values of an Arrow column, in order.
pub uninterp spec fn array_cells(a: arrow::array::ArrayData) -> Seq<Cell>;

/// The columns that the schema of a batch lists, in order.
pub uninterp spec fn batch_columns(b: Batch) -> Seq<ColumnDef>;

/// The values of a batch: for each column its cells, in order. How many rows a batch without
/// columns counts is not told by them.
pub uninterp spec fn batch_cells(b: Batch) -> Seq<Seq<Cell>>;

/// The most bytes that an Arrow `Field` takes in the message of a schema that holds it.
pub uninterp spec fn field_message(f: arrow::datatypes::Field) -> nat;

/// The length of the message that spells an Arrow `Schema` in an IPC stream, its padding counted.
pub uninterp spec fn schema_message(s: arrow::datatypes::Schema) -> nat;

/// The length of the message that spells the schema of a batch in an IPC stream, its padding
/// counted.
pub uninterp spec fn batch_schema_message(b: Batch) -> nat;

/// The length of the longest message that spells a batch or one of its dictionaries in an IPC
/// stream, its padding counted. The values themselves follow a message and are no part of it.
pub uninterp spec fn batch_message(b: Batch) -> nat;

/// The most bytes that Arrow fields take in the message of a schema that holds them.
pub open spec fn fields_message(fields: Seq<arrow::datatypes::Field>) -> nat
    decreases fields.len(),
{
    if fields.len() == 0 {
        0
    } else {
        fields_message(fields.drop_last()) + field_message(fields.last())
    }
}

/// `Field::new` makes a field of the given name, type and nullability. It has no metadata, so an
/// IPC schema spells it with its name and a few small tables.
#[verifier::external_body]
fn new_field(name: &str, kind: ColumnType, nullable: bool) -> (f: arrow::datatypes::Field)
    ensures
        field_column(f) == (ColumnDef { name: name@, kind: DataKind::Known(kind), nullable }),
        field_message(f) <= encode_utf8(name@).len() + 256,
{
    let data_type = match kind {
        ColumnType::Utf8 => arrow::datatypes::DataType::Utf8,
        ColumnType::Int64 => arrow::datatypes::DataType::Int64,
        ColumnType::Float64 => arrow::datatypes::DataType::Float64,
        ColumnType::Boolean => arrow::datatypes::DataType::Boolean,
    };
    arrow::datatypes::Field::new(name, data_type, nullable)
}

/// `Schema::new` makes a schema of the given fields, in order, and without metadata of its own.
#[verifier::external_body]
fn new_schema(fields: Vec<arrow::datatypes::Field>) -> (s: Arc<arrow::datatypes::Schema>)
    ensures
        schema_columns(*s) == fields@.map_values(|f: arrow::datatypes::Field| field_column(f)),
        schema_message(*s) <= fields_message(fields@) + 1024,
{
    Arc::new(arrow::datatypes::Schema::new(fields))
}

/// `Schema::empty` makes a schema without a column.
#[verifier::external_body]
pub(crate) fn empty_schema() -> (s: Arc<arrow::datatypes::Schema>)
    ensures
        schema_columns(*s) == Seq::<ColumnDef>::empty(),
        schema_message(*s) <= 1024,
{
    Arc::new(arrow::datatypes::Schema::empty())
}

/// `StringArray::from` holds the strings, in order and without a null. Its offsets are 32-bit: it
/// panics when the strings take more bytes together.
#[verifier::external_body]
fn utf8_array(strings: Vec<String>) -> (a: arrow::array::ArrayData)
    requires
        text_bytes(string_cells(strings@)) <= i32::MAX,
    ensures
        array_kind(a) == DataKind::Known(ColumnType::Utf8),
        array_cells(a) == string_cells(strings@),
{
    arrow::array::ArrayData::from(arrow::array::StringArray::from(strings))
}

/// `StringArray::from` holds the strings, in order, with a null for each that is absent. Its
/// offsets are 32-bit: it panics when the strings take more bytes together.
#[verifier::external_body]
fn optional_utf8_array(strings: Vec<Option<String>>) -> (a: arrow::array::ArrayData)
    requires
        text_bytes(optional_string_cells(strings@)) <= i32::MAX,
    ensures
        array_kind(a) == DataKind::Known(ColumnType::Utf8),
        array_cells(a) == optional_string_cells(strings@),
{
    arrow::array::ArrayData::from(arrow::array::StringArray::from(strings))
}

/// `Int64Array::from` holds the integers, in order and without a null.
#[verifier::external_body]
fn int64_array(numbers: Vec<i64>) -> (a: arrow::array::ArrayData)
    ensures
        array_kind(a) == DataKind::Known(ColumnType::Int64),
        array_cells(a) == int64_cells(numbers@),
{
    arrow::array::ArrayData::from(arrow::array::Int64Array::from(numbers))
}

/// `Float64Array::new` over a buffer of the given bit patterns holds the numbers that they encode,
/// in order and without a null.
#[verifier::external_body]
fn float64_array(bits: Vec<u64>) -> (a: arrow::array::ArrayData)
    ensures
        array_kind(a) == DataKind::Known(ColumnType::Float64),
        array_cells(a) == float64_cells(bits@),
{
    let buffer = arrow::buffer::Buffer::from_vec(bits);
    arrow::array::ArrayData::from(arrow::array::Float64Array::new(buffer.into(), None))
}

/// `BooleanArray::from` holds the booleans, in order and without a null.
#[verifier::external_body]
fn boolean_array(flags: Vec<bool>) -> (a: arrow::array::ArrayData)
    ensures
        array_kind(a) == DataKind::Known(ColumnType::Boolean),
        array_cells(a) == boolean_cells(flags@),
{
    arrow::array::ArrayData::from(arrow::array::BooleanArray::from(flags))
}

/// The columns fit the schema: as many, of its types and of one length, and without a null where
/// the schema allows none.
pub open spec fn fits_schema(
    columns: Seq<ColumnDef>,
    kinds: Seq<DataKind>,
    cells: Seq<Seq<Cell>>,
) -> bool {
    &&& columns.len() == cells.len()
    &&& cells.len() > 0
    &&& forall|i: int| 0 <= i < cells.len() ==> (#[trigger] cells[i]).len() == cells[0].len()
    &&& forall|i: int| 0 <= i < cells.len() ==> #[trigger] columns[i].kind == kinds[i]
    &&& forall|i: int|
        0 <= i < cells.len() && !(#[trigger] columns[i]).nullable ==> !cells[i].contains(Cell::Null)
}

/// The types of Arrow columns.
pub open spec fn array_kinds(arrays: Seq<arrow::array::ArrayData>) -> Seq<DataKind> {
    arrays.map_values(|a: arrow::array::ArrayData| array_kind(a))
}

/// The values of Arrow columns.
pub open spec fn arrays_cells(arrays: Seq<arrow::array::ArrayData>) -> Seq<Seq<Cell>> {
    arrays.map_values(|a: arrow::array::ArrayData| array_cells(a))
}

/// `RecordBatch::try_new` makes a batch of the schema and the columns exactly when the columns fit
/// the schema. What the message of a refusal says is left open. A column of the types that are
/// accepted here has at most three buffers, and each of those and the column itself take sixteen
/// bytes in the message of the batch. `make_array` panics on some other types.
#[verifier::external_body]
fn new_batch(
    schema: Arc<arrow::datatypes::Schema>,
    arrays: Vec<arrow::array::ArrayData>,
) -> (r: Result<Batch, arrow::error::ArrowError>)
    requires
        forall|i: int| 0 <= i < schema_columns(*schema).len() ==> #[trigger] schema_columns(
            *schema,
        )[i].kind is Known,
        forall|i: int| 0 <= i < arrays@.len() ==> array_kind(#[trigger] arrays@[i]) is Known,
    ensures
        r is Ok <==> fits_schema(
            schema_columns(*schema),
            array_kinds(arrays@),
            arrays_cells(arrays@),
        ),
        r matches Ok(b) ==> batch_columns(b) == schema_columns(*schema),
        r matches Ok(b) ==> batch_cells(b) == arrays_cells(arrays@),
        r matches Ok(b) ==> batch_schema_message(b) == schema_message(*schema),
        r matches Ok(b) ==> batch_message(b) <= 64 * arrays@.len() + 1024,
{
    let columns = arrays.into_iter().map(arrow::array::make_array).collect();
    let inner = arrow::record_batch::RecordBatch::try_new(schema, columns)?;
    Ok(Batch { inner })
}

/// `RecordBatch::schema` hands out the schema of the batch.
#[verifier::external_body]
pub(crate) fn batch_schema(b: &Batch) -> (s: Arc<arrow::datatypes::Schema>)
    ensures
        schema_columns(*s) == batch_columns(*b),
        schema_message(*s) == batch_schema_message(*b),
{
    b.inner.schema()
}

/// The cells of a column of strings.
pub open spec fn string_cells(strings: Seq<String>) -> Seq<Cell> {
    strings.map_values(|s: String| Cell::Utf8(s@))
}

/// The cells of a column of strings that may be absent.
pub open spec fn optional_string_cells(strings: Seq<Option<String>>) -> Seq<Cell> {
    strings.map_values(
        |s: Option<String>|
            match s {
                Some(s) => Cell::Utf8(s@),
                None => Cell::Null,
            },
    )
}

/// The cells of a column of integers.
pub open spec fn int64_cells(numbers: Seq<i64>) -> Seq<Cell> {
    numbers.map_values(|n: i64| Cell::Int64(n))
}

/// The cells of a column of floating-point numbers, given by their bits.
pub open spec fn float64_cells(bits: Seq<u64>) -> Seq<Cell> {
    bits.map_values(|n: u64| Cell::Float64(n))
}

/// The cells of a column of booleans.
pub open spec fn boolean_cells(flags: Seq<bool>) -> Seq<Cell> {
    flags.map_values(|b: bool| Cell::Boolean(b))
}

/// The bytes that a cell takes in a column of strings.
pub open spec fn cell_bytes(c: Cell) -> nat {
    match c {
        Cell::Utf8(text) => encode_utf8(text).len(),
        _ => 0,
    }
}

/// The bytes that the strings of a column take together.
pub open spec fn text_bytes(cells: Seq<Cell>) -> nat
    decreases cells.len(),
{
    if cells.len() == 0 {
        0
    } else {
        text_bytes(cells.drop_last()) + cell_bytes(cells.last())
    }
}

/// The values of a column to build.
#[derive(Debug)]
pub enum ColumnValues {
    Utf8(Vec<String>),
    /// Strings that may be absent; the column is nullable.
    OptionalUtf8(Vec<Option<String>>),
    Int64(Vec<i64>),
    /// Floating-point numbers, given by their IEEE-754 bits.
    Float64(Vec<u64>),
    Boolean(Vec<bool>),
}

/// A column to build.
#[derive(Debug)]
pub struct Column<'a> {
    pub name: &'a str,
    pub values: ColumnValues,
}

impl ColumnValues {
    /// The type of the column.
    pub open spec fn kind(self) -> ColumnType {
        match self {
            ColumnValues::Utf8(_) => ColumnType::Utf8,
            ColumnValues::OptionalUtf8(_) => ColumnType::Utf8,
            ColumnValues::Int64(_) => ColumnType::Int64,
            ColumnValues::Float64(_) => ColumnType::Float64,
            ColumnValues::Boolean(_) => ColumnType::Boolean,
        }
    }

    /// The cells of the column.
    pub open spec fn cells(self) -> Seq<Cell> {
        match self {
            ColumnValues::Utf8(v) => string_cells(v@),
            ColumnValues::OptionalUtf8(v) => optional_string_cells(v@),
            ColumnValues::Int64(v) => int64_cells(v@),
            ColumnValues::Float64(v) => float64_cells(v@),
            ColumnValues::Boolean(v) => boolean_cells(v@),
        }
    }
}

impl<'a> Column<'a> {
    /// What the schema of the batch says of the column: only strings that may be absent are
    /// nullable.
    pub open spec fn def(self) -> ColumnDef {
        ColumnDef {
            name: self.name@,
            kind: DataKind::Known(self.values.kind()),
            nullable: self.values is OptionalUtf8,
        }
    }
}

/// What the schema says of the columns.
pub open spec fn column_defs(columns: Seq<Column<'_>>) -> Seq<ColumnDef> {
    columns.map_values(|c: Column<'_>| c.def())
}

/// The cells of the columns.
pub open spec fn column_cells(columns: Seq<Column<'_>>) -> Seq<Seq<Cell>> {
    columns.map_values(|c: Column<'_>| c.values.cells())
}

/// The most bytes that fields for the columns take in the message of a schema.
pub open spec fn defs_message(columns: Seq<Column<'_>>) -> nat
    decreases columns.len(),
{
    if columns.len() == 0 {
        0
    } else {
        defs_message(columns.drop_last()) + encode_utf8(columns.last().name@).len() + 256
    }
}

/// What stops Arrow from holding a column: its strings do not fit 32-bit offsets. A nullable column
/// is put together differently and says so in other words.
pub open spec fn overflow(nullable: bool, cells: Seq<Cell>) -> Option<Seq<char>> {
    if text_bytes(cells) <= i32::MAX {
        None
    } else if nullable {
        Some("byte array offset overflow"@)
    } else {
        Some("offset overflow"@)
    }
}

/// What stops Arrow from holding the first of the first `n` columns that it cannot hold.
pub open spec fn first_overflow(defs: Seq<ColumnDef>, cells: Seq<Seq<Cell>>, n: nat) -> Option<
    Seq<char>,
>
    decreases n,
{
    if n == 0 {
        None
    } else {
        match first_overflow(defs, cells, (n - 1) as nat) {
            Some(reason) => Some(reason),
            None => overflow(defs[n - 1].nullable, cells[n - 1]),
        }
    }
}

/// The columns have one length, and there is at least one.
pub open spec fn even_columns(cells: Seq<Seq<Cell>>) -> bool {
    &&& cells.len() > 0
    &&& forall|i: int| 0 <= i < cells.len() ==> (#[trigger] cells[i]).len() == cells[0].len()
}

/// Why a batch was not built.
#[derive(Debug)]
pub enum BatchFailure {
    /// Arrow refused the batch.
    Call(CallError),
    /// Arrow panicked with this message.
    Panic(String),
}

/// The outcome of building a batch: a column that Arrow cannot hold is a panic, columns of uneven
/// length are a failed query, and otherwise the batch holds the columns.
pub open spec fn builds(
    defs: Seq<ColumnDef>,
    cells: Seq<Seq<Cell>>,
    r: Result<Batch, BatchFailure>,
) -> bool {
    match first_overflow(defs, cells, cells.len()) {
        Some(reason) => r matches Err(BatchFailure::Panic(text)) && text@ == reason,
        None => if even_columns(cells) {
            r matches Ok(b) && batch_columns(b) == defs && batch_cells(b) == cells
        } else {
            r matches Err(BatchFailure::Call(CallError::Query(text))) && is_arrow_error(text@)
        },
    }
}

/// The message reports a failure of Arrow.
pub open spec fn is_arrow_error(message: Seq<char>) -> bool {
    exists|reason: Seq<char>| message == "arrow: "@ + reason
}

/// Report a failure of Arrow as a failed query.
pub fn arrow_err(e: arrow::error::ArrowError) -> (r: CallError)
    ensures
        r matches CallError::Query(text) && exists|reason: String|
            vstd::string::to_string_from_display_ensures::<arrow::error::ArrowError>(&e, reason)
                && text@ == "arrow: "@ + #[trigger] reason@,
{
    let reason = e.to_string();
    CallError::Query(joined("arrow: ", reason.as_str()))
}

/// The bytes of a prefix are no more than those of the whole.
proof fn lemma_text_bytes_grow(cells: Seq<Cell>, i: int)
    requires
        0 <= i <= cells.len(),
    ensures
        text_bytes(cells.take(i)) <= text_bytes(cells),
    decreases cells.len() - i,
{
    if i < cells.len() {
        lemma_text_bytes_grow(cells, i + 1);
        assert(cells.take(i + 1).drop_last() =~= cells.take(i));
    } else {
        assert(cells.take(i) =~= cells);
    }
}

/// Cells that are no strings take no bytes.
proof fn lemma_no_text(cells: Seq<Cell>)
    requires
        forall|i: int| 0 <= i < cells.len() ==> !(#[trigger] cells[i] is Utf8),
    ensures
        text_bytes(cells) == 0,
    decreases cells.len(),
{
    if cells.len() > 0 {
        lemma_no_text(cells.drop_last());
    }
}

/// Whether the strings fit 32-bit offsets.
fn strings_fit(strings: &Vec<String>) -> (fit: bool)
    ensures
        fit == (text_bytes(string_cells(strings@)) <= i32::MAX),
{
    let mut total: usize = 0;
    let ghost cells = string_cells(strings@);
    for i in 0..strings.len()
        invariant
            cells == string_cells(strings@),
            total == text_bytes(cells.take(i as int)),
            total <= i32::MAX,
    {
        let len: usize = strings[i].as_str().as_bytes().len();
        proof {
            assert(cells.take(i + 1).drop_last() =~= cells.take(i as int));
            lemma_text_bytes_grow(cells, i + 1);
        }
        if len > 0x7fff_ffff - total {
            return false;
        }
        total = total + len;
    }
    assert(cells.take(cells.len() as int) =~= cells);
    true
}

/// Whether the strings that are there fit 32-bit offsets.
fn optional_strings_fit(strings: &Vec<Option<String>>) -> (fit: bool)
    ensures
        fit == (text_bytes(optional_string_cells(strings@)) <= i32::MAX),
{
    let mut total: usize = 0;
    let ghost cells = optional_string_cells(strings@);
    for i in 0..strings.len()
        invariant
            cells == optional_string_cells(strings@),
            total == text_bytes(cells.take(i as int)),
            total <= i32::MAX,
    {
        let len: usize = match &strings[i] {
            Some(s) => s.as_str().as_bytes().len(),
            None => 0,
        };
        proof {
            assert(cells.take(i + 1).drop_last() =~= cells.take(i as int));
            lemma_text_bytes_grow(cells, i + 1);
        }
        if len > 0x7fff_ffff - total {
            return false;
        }
        total = total + len;
    }
    assert(cells.take(cells.len() as int) =~= cells);
    true
}

/// Turn the values of a column into an Arrow column, or report what stops Arrow from holding them.
fn build_array(values: ColumnValues) -> (r: Result<arrow::array::ArrayData, String>)
    ensures
        match overflow(values is OptionalUtf8, values.cells()) {
            None => r matches Ok(a) && array_kind(a) == DataKind::Known(values.kind())
                && array_cells(a) == values.cells(),
            Some(reason) => r matches Err(text) && text@ == reason,
        },
{
    match values {
        ColumnValues::Utf8(v) => if strings_fit(&v) {
            Ok(utf8_array(v))
        } else {
            Err("offset overflow".to_owned())
        },
        ColumnValues::OptionalUtf8(v) => if optional_strings_fit(&v) {
            Ok(optional_utf8_array(v))
        } else {
            Err("byte array offset overflow".to_owned())
        },
        ColumnValues::Int64(v) => {
            proof {
                lemma_no_text(int64_cells(v@));
            }
            Ok(int64_array(v))
        },
        ColumnValues::Float64(v) => {
            proof {
                lemma_no_text(float64_cells(v@));
            }
            Ok(float64_array(v))
        },
        ColumnValues::Boolean(v) => {
            proof {
                lemma_no_text(boolean_cells(v@));
            }
            Ok(boolean_array(v))
        },
    }
}

/// Once a column overflows, the columns behind it do not matter.
proof fn lemma_first_overflow_stands(defs: Seq<ColumnDef>, cells: Seq<Seq<Cell>>, k: nat, n: nat)
    requires
        k <= n,
        first_overflow(defs, cells, k) is Some,
    ensures
        first_overflow(defs, cells, n) == first_overflow(defs, cells, k),
    decreases n - k,
{
    if k < n {
        lemma_first_overflow_stands(defs, cells, k, (n - 1) as nat);
    }
}

/// The columns fit the schema that describes them exactly when they have one length.
proof fn lemma_columns_fit(columns: Seq<Column<'_>>, kinds: Seq<DataKind>)
    requires
        kinds.len() == columns.len(),
        forall|i: int|
            0 <= i < columns.len() ==> #[trigger] kinds[i] == DataKind::Known(
                columns[i].values.kind(),
            ),
    ensures
        fits_schema(column_defs(columns), kinds, column_cells(columns)) <==> even_columns(
            column_cells(columns),
        ),
{
    let defs = column_defs(columns);
    let cells = column_cells(columns);
    if even_columns(cells) {
        assert forall|i: int| 0 <= i < cells.len() && !(
        #[trigger] defs[i]).nullable implies !cells[i].contains(Cell::Null) by {
            assert(!(columns[i].values is OptionalUtf8));
        }
        assert forall|i: int| 0 <= i < cells.len() implies #[trigger] defs[i].kind == kinds[i] by {
            assert(kinds[i] == DataKind::Known(columns[i].values.kind()));
        }
    }
}

/// Build a batch of the columns.
pub fn build_batch(columns: Vec<Column<'_>>) -> (r: Result<Batch, BatchFailure>)
    ensures
        builds(column_defs(columns@), column_cells(columns@), r),
        r matches Ok(b) ==> batch_schema_message(b) <= defs_message(columns@) + 1024,
        r matches Ok(b) ==> batch_message(b) <= 64 * columns@.len() + 1024,
{
    let ghost all = columns@;
    let mut rest = columns;
    let mut fields: Vec<arrow::datatypes::Field> = Vec::new();
    let mut arrays: Vec<arrow::array::ArrayData> = Vec::new();
    while rest.len() > 0
        invariant
            all == columns@,
            fields@.len() + rest@.len() == all.len(),
            arrays@.len() == fields@.len(),
            rest@ == all.skip(fields@.len() as int),
            first_overflow(column_defs(all), column_cells(all), fields@.len()) is None,
            fields_message(fields@) <= defs_message(all.take(fields@.len() as int)),
            forall|i: int|
                0 <= i < fields@.len() ==> field_column(#[trigger] fields@[i]) == all[i].def(),
            forall|i: int|
                0 <= i < fields@.len() ==> array_kind(#[trigger] arrays@[i]) == DataKind::Known(
                    all[i].values.kind(),
                ),
            forall|i: int|
                0 <= i < fields@.len() ==> array_cells(#[trigger] arrays@[i])
                    == all[i].values.cells(),
        decreases rest@.len(),
    {
        let ghost at: int = fields@.len() as int;
        let c = rest.remove(0);
        assert(c == all[at]);
        assert(rest@ =~= all.skip(at + 1));
        let (kind, nullable) = match &c.values {
            ColumnValues::Utf8(_) => (ColumnType::Utf8, false),
            ColumnValues::OptionalUtf8(_) => (ColumnType::Utf8, true),
            ColumnValues::Int64(_) => (ColumnType::Int64, false),
            ColumnValues::Float64(_) => (ColumnType::Float64, false),
            ColumnValues::Boolean(_) => (ColumnType::Boolean, false),
        };
        let field = new_field(c.name, kind, nullable);
        match build_array(c.values) {
            Ok(a) => {
                let ghost before = fields@;
                fields.push(field);
                arrays.push(a);
                assert(fields@.drop_last() =~= before);
                assert(all.take(at + 1).drop_last() =~= all.take(at));
            },
            Err(text) => {
                proof {
                    lemma_first_overflow_stands(
                        column_defs(all),
                        column_cells(all),
                        (at + 1) as nat,
                        all.len(),
                    );
                }
                return Err(BatchFailure::Panic(text));
            },
        }
    }
    proof {
        assert(fields@.map_values(|f: arrow::datatypes::Field| field_column(f)) =~= column_defs(
            all,
        ));
        assert(arrays_cells(arrays@) =~= column_cells(all));
        assert(all.take(all.len() as int) =~= all);
        lemma_columns_fit(all, array_kinds(arrays@));
    }
    match new_batch(new_schema(fields), arrays) {
        Ok(b) => Ok(b),
        Err(e) => Err(BatchFailure::Call(arrow_err(e))),
    }
}

/// The cells of a column are its values, in order.
pub proof fn cells_are_the_values_in_order(
    strings: Seq<String>,
    optional: Seq<Option<String>>,
    numbers: Seq<i64>,
    bits: Seq<u64>,
    flags: Seq<bool>,
    i: int,
)
    ensures
        string_cells(strings).len() == strings.len(),
        optional_string_cells(optional).len() == optional.len(),
        int64_cells(numbers).len() == numbers.len(),
        float64_cells(bits).len() == bits.len(),
        boolean_cells(flags).len() == flags.len(),
        0 <= i < strings.len() ==> string_cells(strings)[i] == Cell::Utf8(strings[i]@),
        0 <= i < optional.len() ==> (optional[i] matches Some(s) ==> optional_string_cells(
            optional,
        )[i] == Cell::Utf8(s@)),
        0 <= i < optional.len() && optional[i] is None ==> optional_string_cells(optional)[i]
            == Cell::Null,
        0 <= i < numbers.len() ==> int64_cells(numbers)[i] == Cell::Int64(numbers[i]),
        0 <= i < bits.len() ==> float64_cells(bits)[i] == Cell::Float64(bits[i]),
        0 <= i < flags.len() ==> boolean_cells(flags)[i] == Cell::Boolean(flags[i]),
{
}

/// The text of a column takes the bytes of its strings, one after the other: two stretches of cells
/// take the bytes of both, a string those of its encoding, and any other cell none.
pub proof fn text_takes_the_bytes_of_its_strings(a: Seq<Cell>, b: Seq<Cell>, c: Cell)
    ensures
        text_bytes(a + b) == text_bytes(a) + text_bytes(b),
        c matches Cell::Utf8(text) ==> text_bytes(seq![c]) == encode_utf8(text).len(),
        !(c is Utf8) ==> text_bytes(seq![c]) == 0,
        text_bytes(Seq::empty()) == 0,
    decreases b.len(),
{
    reveal_with_fuel(text_bytes, 2);
    assert(seq![c].drop_last() =~= Seq::<Cell>::empty());
    assert(seq![c].last() == c);
    if b.len() == 0 {
        assert(a + b =~= a);
    } else {
        text_takes_the_bytes_of_its_strings(a, b.drop_last(), c);
        assert((a + b).drop_last() =~= a + b.drop_last());
    }
}

/// Whether one of the first `n` columns outgrows what Arrow holds, and which is the first.
proof fn lemma_first_overflow_found(defs: Seq<ColumnDef>, cells: Seq<Seq<Cell>>, n: nat)
    requires
        n <= cells.len(),
    ensures
        first_overflow(defs, cells, n) is None <==> (forall|k: int|
            0 <= k < n ==> text_bytes(#[trigger] cells[k]) <= i32::MAX),
        forall|k: int|
            0 <= k < n && text_bytes(#[trigger] cells[k]) > i32::MAX && (forall|j: int|
                0 <= j < k ==> text_bytes(#[trigger] cells[j]) <= i32::MAX) ==> first_overflow(
                defs,
                cells,
                n,
            ) == Some(
                if defs[k].nullable {
                    "byte array offset overflow"@
                } else {
                    "offset overflow"@
                },
            ),
    decreases n,
{
    if n > 0 {
        lemma_first_overflow_found(defs, cells, (n - 1) as nat);
    }
}

/// A batch holds its columns, each with its own name, its type and its values in order. Columns of
/// one height that Arrow can hold become a batch; one that outgrows it ends the build.
pub proof fn batches_hold_their_columns(
    columns: Vec<Column<'_>>,
    k: int,
    i: int,
    r: Result<Batch, BatchFailure>,
)
    requires
        call_ensures(build_batch, (columns,), r),
        0 <= k < columns@.len(),
    ensures
        r matches Ok(b) ==> {
            &&& batch_columns(b).len() == columns@.len()
            &&& batch_cells(b).len() == columns@.len()
            &&& batch_columns(b)[k].name == columns@[k].name@
            &&& batch_cells(b)[k] == columns@[k].values.cells()
            &&& match columns@[k].values {
                ColumnValues::Utf8(v) => batch_columns(b)[k].kind == DataKind::Known(
                    ColumnType::Utf8,
                ) && !batch_columns(b)[k].nullable,
                ColumnValues::OptionalUtf8(v) => batch_columns(b)[k].kind == DataKind::Known(
                    ColumnType::Utf8,
                ) && batch_columns(b)[k].nullable,
                ColumnValues::Int64(v) => batch_columns(b)[k].kind == DataKind::Known(
                    ColumnType::Int64,
                ) && !batch_columns(b)[k].nullable,
                ColumnValues::Float64(v) => batch_columns(b)[k].kind == DataKind::Known(
                    ColumnType::Float64,
                ) && !batch_columns(b)[k].nullable,
                ColumnValues::Boolean(v) => batch_columns(b)[k].kind == DataKind::Known(
                    ColumnType::Boolean,
                ) && !batch_columns(b)[k].nullable,
            }
        },
        match columns@[k].values {
            ColumnValues::Utf8(v) => {
                &&& columns@[k].values.cells().len() == v@.len()
                &&& 0 <= i < v@.len() ==> columns@[k].values.cells()[i] == Cell::Utf8(v@[i]@)
            },
            ColumnValues::OptionalUtf8(v) => {
                &&& columns@[k].values.cells().len() == v@.len()
                &&& 0 <= i < v@.len() ==> (v@[i] matches Some(s) ==> columns@[k].values.cells()[i]
                    == Cell::Utf8(s@))
                &&& 0 <= i < v@.len() && v@[i] is None ==> columns@[k].values.cells()[i]
                    == Cell::Null
            },
            ColumnValues::Int64(v) => {
                &&& columns@[k].values.cells().len() == v@.len()
                &&& 0 <= i < v@.len() ==> columns@[k].values.cells()[i] == Cell::Int64(v@[i])
            },
            ColumnValues::Float64(v) => {
                &&& columns@[k].values.cells().len() == v@.len()
                &&& 0 <= i < v@.len() ==> columns@[k].values.cells()[i] == Cell::Float64(v@[i])
            },
            ColumnValues::Boolean(v) => {
                &&& columns@[k].values.cells().len() == v@.len()
                &&& 0 <= i < v@.len() ==> columns@[k].values.cells()[i] == Cell::Boolean(v@[i])
            },
        },
        (forall|c: int|
            0 <= c < columns@.len() ==> (#[trigger] columns@[c]).values.cells().len()
                == columns@[0].values.cells().len() && text_bytes(columns@[c].values.cells())
                <= i32::MAX) ==> r is Ok,
        text_bytes(columns@[k].values.cells()) > i32::MAX ==> (r matches Err(
            BatchFailure::Panic(_),
        )),
        text_bytes(columns@[k].values.cells()) > i32::MAX && (forall|c: int|
            0 <= c < k ==> text_bytes((#[trigger] columns@[c]).values.cells()) <= i32::MAX) ==> (
        r matches Err(BatchFailure::Panic(text)) && text@ == (if columns@[k].values
            is OptionalUtf8 {
            "byte array offset overflow"@
        } else {
            "offset overflow"@
        })),
        r is Ok ==> columns@[k].values.cells().len() == columns@[0].values.cells().len(),
{
    let cells = column_cells(columns@);
    let defs = column_defs(columns@);
    lemma_first_overflow_found(defs, cells, cells.len());
    assert forall|c: int| 0 <= c < columns@.len() implies #[trigger] cells[c]
        == columns@[c].values.cells() by {}
    assert(cells[k] == columns@[k].values.cells() && cells[0] == columns@[0].values.cells());
    assert(defs[k] == columns@[k].def());
    if text_bytes(columns@[k].values.cells()) > i32::MAX && (forall|c: int|
        0 <= c < k ==> text_bytes((#[trigger] columns@[c]).values.cells()) <= i32::MAX) {
        assert forall|c: int| 0 <= c < k implies text_bytes(#[trigger] cells[c]) <= i32::MAX by {
            assert(cells[c] == columns@[c].values.cells());
        }
    }
    if let Ok(b) = r {
        assert(batch_columns(b)[k] == columns@[k].def());
        assert(batch_cells(b)[k] == columns@[k].values.cells());
    }
    if forall|c: int|
        0 <= c < columns@.len() ==> (#[trigger] columns@[c]).values.cells().len()
            == columns@[0].values.cells().len() && text_bytes(columns@[c].values.cells())
            <= i32::MAX {
        assert forall|c: int| 0 <= c < cells.len() implies text_bytes(#[trigger] cells[c])
            <= i32::MAX && cells[c].len() == cells[0].len() by {
            assert(cells[c] == columns@[c].values.cells());
            assert(text_bytes(columns@[c].values.cells()) <= i32::MAX);
        }
    }
}

/// What Arrow refuses is a failed query, told behind a prefix.
pub proof fn refusals_of_arrow_are_failed_queries(e: arrow::error::ArrowError, r: CallError)
    requires
        call_ensures(arrow_err, (e,), r),
    ensures
        r matches CallError::Query(text) && exists|reason: Seq<char>|
            text@ == #[trigger] ("arrow: "@ + reason),
{
    if let CallError::Query(text) = r {
        let reason = choose|reason: String|
            vstd::string::to_string_from_display_ensures::<arrow::error::ArrowError>(&e, reason)
                && text@ == "arrow: "@ + #[trigger] reason@;
        assert(text@ == "arrow: "@ + reason@);
    }
}

} // verus!
