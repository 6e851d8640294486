//! Arrow's schemas, columns and record batches.
//!
//! Everything that this library takes for granted of `arrow-schema` and
//! `arrow-array` stands here. A column is described by its kind and its cells, a
//! batch by its named columns. A 32-bit float is held as its bit pattern, a `u32`:
//! floats pass through this library and are never computed with.
use arrow_array::types::Float32Type;
use arrow_array::{
    Array, ArrayRef, ArrowPrimitiveType, FixedSizeListArray, Float32Array, RecordBatch, StringArray,
};
use arrow_schema::{ArrowError, DataType, Field, Schema};
use std::sync::Arc;
use vstd::prelude::*;
use vstd::utf8::encode_utf8;

verus! {

// ---------------------------------------------------------------------------
// What a column is
// ---------------------------------------------------------------------------

/// The kinds of columns that the store tells apart.
pub enum ColumnKind {
    /// Strings.
    Utf8,
    /// 32-bit floats.
    Float32,
    /// Lists of `size` 32-bit floats. The items are described by a field with this
    /// name and nullability, and without metadata.
    FloatList { item_name: Seq<char>, item_nullable: bool, size: int },
    /// Anything else.
    Other,
}

/// The value in one slot of a column.
pub enum CellValue {
    Text(Seq<char>),
    Float(u32),
    Floats(Seq<Option<u32>>),
    Other,
}

/// One slot of a column: the value in it, and whether the slot counts as null.
pub struct Cell {
    pub value: CellValue,
    pub null: bool,
}

/// Remarks on a schema or on a column of it, each under a key.
pub type Metadata = Map<Seq<char>, Seq<char>>;

/// A column of a schema.
#[verifier::ext_equal]
pub struct FieldView {
    pub name: Seq<char>,
    pub kind: ColumnKind,
    pub nullable: bool,
    pub metadata: Metadata,
}

/// A schema: its columns, and what is remarked on it.
#[verifier::ext_equal]
pub struct SchemaView {
    pub fields: Seq<FieldView>,
    pub metadata: Metadata,
}

/// A column of a batch.
#[verifier::ext_equal]
pub struct ColumnView {
    pub name: Seq<char>,
    pub kind: ColumnKind,
    pub cells: Seq<Cell>,
}

/// A batch: its schema, its number of rows and its columns.
#[verifier::ext_equal]
pub struct BatchView {
    pub schema: SchemaView,
    pub rows: nat,
    pub columns: Seq<ColumnView>,
}

/// A cell that holds a string.
pub open spec fn text_cell(text: Seq<char>) -> Cell {
    Cell { value: CellValue::Text(text), null: false }
}

/// A cell that holds a list of floats.
pub open spec fn floats_cell(floats: Seq<Option<u32>>) -> Cell {
    Cell { value: CellValue::Floats(floats), null: false }
}

/// The position of the first column with the given name.
pub open spec fn first_named(columns: Seq<ColumnView>, name: Seq<char>) -> Option<int>
    decreases columns.len(),
{
    if columns.len() == 0 {
        None
    } else {
        match first_named(columns.drop_last(), name) {
            Some(i) => Some(i),
            None => if columns.last().name == name {
                Some(columns.len() - 1)
            } else {
                None
            },
        }
    }
}

/// How many bytes the strings take up in UTF-8, all together.
pub open spec fn total_bytes(strings: Seq<Seq<char>>) -> nat
    decreases strings.len(),
{
    if strings.len() == 0 {
        0
    } else {
        total_bytes(strings.drop_last()) + encode_utf8(strings.last()).len()
    }
}

/// The views of a sequence of strings.
pub open spec fn string_views(strings: Seq<String>) -> Seq<Seq<char>> {
    strings.map_values(|string: String| string@)
}

/// Columns fit a schema when there is at least one, and they agree with its fields
/// one for one: in number and in kind, without a null where the field allows none,
/// and all of one length.
pub open spec fn columns_fit(
    fields: Seq<FieldView>,
    kinds: Seq<ColumnKind>,
    cells: Seq<Seq<Cell>>,
) -> bool {
    &&& fields.len() == cells.len()
    &&& fields.len() > 0
    &&& forall|i: int| 0 <= i < fields.len() ==> #[trigger] fields[i].kind == kinds[i]
    &&& forall|i: int| 0 <= i < fields.len() ==> #[trigger] cells[i].len() == cells[0].len()
    &&& forall|i: int, j: int|
        0 <= i < fields.len() && 0 <= j < cells[i].len() && !fields[i].nullable
            ==> !(#[trigger] cells[i][j]).null
}

// ---------------------------------------------------------------------------
// Schemas
// ---------------------------------------------------------------------------

/// `arrow_schema::Schema`: an ordered collection of fields.
#[verifier::external_type_specification]
#[verifier::external_body]
pub struct ExSchema(Schema);

/// The fields of a schema, in order.
pub uninterp spec fn schema_fields(schema: Schema) -> Seq<FieldView>;

/// The metadata of a schema itself.
pub uninterp spec fn schema_metadata(schema: Schema) -> Map<Seq<char>, Seq<char>>;

/// A schema in plain sequences.
pub open spec fn schema_view(schema: Schema) -> SchemaView {
    SchemaView { fields: schema_fields(schema), metadata: schema_metadata(schema) }
}

/// The type of a table column that is to be made.
pub enum FieldType {
    Utf8,
    FloatList { item_name: String, item_nullable: bool, size: i32 },
}

/// A table column that is to be made.
pub struct TableField {
    pub name: String,
    pub field_type: FieldType,
    pub nullable: bool,
}

impl View for FieldType {
    type V = ColumnKind;

    open spec fn view(&self) -> ColumnKind {
        match self {
            FieldType::Utf8 => ColumnKind::Utf8,
            FieldType::FloatList { item_name, item_nullable, size } => ColumnKind::FloatList {
                item_name: item_name@,
                item_nullable: *item_nullable,
                size: *size as int,
            },
        }
    }
}

impl View for TableField {
    type V = FieldView;

    open spec fn view(&self) -> FieldView {
        FieldView {
            name: self.name@,
            kind: self.field_type@,
            nullable: self.nullable,
            metadata: Map::empty(),
        }
    }
}

/// Makes a schema with `arrow_schema::Schema::new`, each field with
/// `arrow_schema::Field::new`.
///
/// Taken for granted: the schema has these fields, in this order, and neither it nor
/// any of them has metadata.
#[verifier::external_body]
pub(crate) fn new_schema(fields: Vec<TableField>) -> (schema: Schema)
    ensures
        schema_fields(schema) == fields@.map_values(|field: TableField| field@),
        schema_metadata(schema) == Metadata::empty(),
{
    let new_field = |field: TableField| {
        let data_type = match field.field_type {
            FieldType::Utf8 => DataType::Utf8,
            FieldType::FloatList { item_name, item_nullable, size } => {
                let item = Field::new(item_name, DataType::Float32, item_nullable);
                DataType::FixedSizeList(Arc::new(item), size)
            }
        };
        Field::new(field.name, data_type, field.nullable)
    };
    Schema::new(fields.into_iter().map(new_field).collect::<Vec<Field>>())
}

// ---------------------------------------------------------------------------
// Columns
// ---------------------------------------------------------------------------

/// An `arrow_array::ArrayRef`: an array of some type.
#[verifier::external_body]
pub struct Column {
    array: ArrayRef,
}

/// What kind of array a column is.
pub uninterp spec fn column_kind(column: Column) -> ColumnKind;

/// The slots of a column, in order.
pub uninterp spec fn column_cells(column: Column) -> Seq<Cell>;

/// An `arrow_array::StringArray`.
#[verifier::external_body]
pub struct StringColumn {
    array: StringArray,
}

/// The strings in the slots of a string column, in order, those in null slots
/// included.
pub uninterp spec fn string_values(column: StringColumn) -> Seq<Seq<char>>;

/// An `arrow_array::Float32Array`.
#[verifier::external_body]
pub struct FloatColumn {
    array: Float32Array,
}

/// The bit patterns of the floats in the slots of a float column, in order, those
/// in null slots included.
pub uninterp spec fn float_values(column: FloatColumn) -> Seq<u32>;

/// Makes a string column with `arrow_array::StringArray::from`.
///
/// Taken for granted: it holds these strings, in this order, and no null. It is
/// not asked for more bytes than its 32-bit offsets can count, where it panics.
#[verifier::external_body]
pub(crate) fn new_string_column(strings: Vec<String>) -> (column: Column)
    requires
        total_bytes(string_views(strings@)) <= i32::MAX,
    ensures
        column_kind(column) == ColumnKind::Utf8,
        column_cells(column) == strings@.map_values(|string: String| text_cell(string@)),
{
    Column { array: Arc::new(StringArray::from(strings)) }
}

/// Makes a column of lists of `size` floats with
/// `arrow_array::FixedSizeListArray::from_iter_primitive`.
///
/// Taken for granted: the floats of all rows are put one after the other, and the
/// list in a slot is the next `size` of them, so no list is null; the items are
/// nullable and named "item". It is not asked for a negative size, nor for rows
/// that do not add up to whole lists, one for each row, where it panics.
#[verifier::external_body]
pub(crate) fn new_float_list_column(rows: Vec<Option<Vec<Option<u32>>>>, size: i32) -> (column:
    Column)
    requires
        size >= 0,
        forall|i: int| 0 <= i < rows@.len() ==> #[trigger] rows@[i] is Some,
        row_values(rows@).flatten().len() == rows@.len() * size,
    ensures
        column_kind(column) == (ColumnKind::FloatList {
            item_name: "item"@,
            item_nullable: true,
            size: size as int,
        }),
        column_cells(column) == list_cells(row_values(rows@).flatten(), rows@.len(), size as int),
{
    let as_float =
        |bits: Option<u32>| bits.map(<<Float32Type as ArrowPrimitiveType>::Native>::from_bits);
    let rows = rows.into_iter().map(|row| row.map(|row| row.into_iter().map(as_float)));
    let array = FixedSizeListArray::from_iter_primitive::<Float32Type, _, _>(rows, size);
    Column { array: Arc::new(array) }
}

/// The items of each row.
pub open spec fn row_values(rows: Seq<Option<Vec<Option<u32>>>>) -> Seq<Seq<Option<u32>>> {
    rows.map_values(|row: Option<Vec<Option<u32>>>| row->0@)
}

/// `count` lists of `size` items each, cut from the front of `items`.
pub open spec fn list_cells(items: Seq<Option<u32>>, count: nat, size: int) -> Seq<Cell> {
    Seq::new(count, |i: int| floats_cell(items.subrange(i * size, (i + 1) * size)))
}

/// Looks at a column as strings, with `as_any` of `arrow_array::Array` and
/// `downcast_ref` to `arrow_array::StringArray`.
///
/// Taken for granted: this works for the string columns and for no others, and the
/// strings are those in the column's cells.
#[verifier::external_body]
pub(crate) fn downcast_strings(column: &Column) -> (strings: Option<StringColumn>)
    ensures
        strings is Some <==> column_kind(*column) == ColumnKind::Utf8,
        strings matches Some(s) ==> {
            &&& string_values(s).len() == column_cells(*column).len()
            &&& forall|i: int|
                0 <= i < string_values(s).len() ==> (#[trigger] column_cells(*column)[i]).value
                    == CellValue::Text(string_values(s)[i])
        },
{
    let array = column.array.as_any().downcast_ref::<StringArray>()?;
    Some(StringColumn { array: array.clone() })
}

/// Looks at a column as floats, with `as_any` of `arrow_array::Array` and
/// `downcast_ref` to `arrow_array::Float32Array`.
///
/// Taken for granted: this works for the float columns and for no others, and the
/// floats are those in the column's cells.
#[verifier::external_body]
pub(crate) fn downcast_floats(column: &Column) -> (floats: Option<FloatColumn>)
    ensures
        floats is Some <==> column_kind(*column) == ColumnKind::Float32,
        floats matches Some(f) ==> {
            &&& float_values(f).len() == column_cells(*column).len()
            &&& forall|i: int|
                0 <= i < float_values(f).len() ==> (#[trigger] column_cells(*column)[i]).value
                    == CellValue::Float(float_values(f)[i])
        },
{
    let array = column.array.as_any().downcast_ref::<Float32Array>()?;
    Some(FloatColumn { array: array.clone() })
}

/// Reads a slot with `arrow_array::StringArray::value`.
///
/// Taken for granted: it gives the string in that slot, null or not. It is not
/// asked for a slot that is not there, where it panics.
#[verifier::external_body]
pub(crate) fn string_at(column: &StringColumn, index: usize) -> (string: String)
    requires
        index < string_values(*column).len(),
    ensures
        string@ == string_values(*column)[index as int],
{
    column.array.value(index).to_string()
}

/// Reads a slot with `arrow_array::Float32Array::value`.
///
/// Taken for granted: it gives the float in that slot, null or not. It is not
/// asked for a slot that is not there, where it panics.
#[verifier::external_body]
pub(crate) fn float_at(column: &FloatColumn, index: usize) -> (bits: u32)
    requires
        index < float_values(*column).len(),
    ensures
        bits == float_values(*column)[index as int],
{
    column.array.value(index).to_bits()
}

// ---------------------------------------------------------------------------
// Batches
// ---------------------------------------------------------------------------

/// An `arrow_array::RecordBatch`: columns of one length, under the names that its
/// schema gives them. The batch is in the open so that the caller can hand over
/// what a database returned, and hand a database what was made here.
#[verifier::external_body]
#[derive(Debug)]
pub struct TableBatch {
    pub batch: RecordBatch,
}

/// The fields of the schema that a batch carries, in order.
pub uninterp spec fn batch_fields(batch: TableBatch) -> Seq<FieldView>;

/// The metadata of the schema that a batch carries.
pub uninterp spec fn batch_metadata(batch: TableBatch) -> Map<Seq<char>, Seq<char>>;

/// The columns of a batch, in order.
pub uninterp spec fn batch_columns(batch: TableBatch) -> Seq<ColumnView>;

/// The number of rows of a batch.
pub uninterp spec fn batch_rows(batch: TableBatch) -> nat;

impl View for TableBatch {
    type V = BatchView;

    open spec fn view(&self) -> BatchView {
        BatchView {
            schema: SchemaView { fields: batch_fields(*self), metadata: batch_metadata(*self) },
            rows: batch_rows(*self),
            columns: batch_columns(*self),
        }
    }
}

/// This may be the error with which Arrow rejects columns of these kinds and with
/// these cells, for a schema with these fields. It need not be the same error each
/// time: the error spells out the types that differ, and the metadata in them comes
/// in no fixed order.
pub uninterp spec fn may_reject(
    fields: Seq<FieldView>,
    kinds: Seq<ColumnKind>,
    cells: Seq<Seq<Cell>>,
    error: ArrowError,
) -> bool;

/// Makes a batch with `arrow_array::RecordBatch::try_new`.
///
/// Taken for granted: columns that fit the schema make a batch that carries this
/// schema and these columns, named by the schema, with as many rows as a column is
/// long; columns that do not fit are rejected, with an error that Arrow has for them.
/// How that error is worded is left unsaid. Nothing is claimed of columns of an
/// unknown kind, and none is asked for.
#[verifier::external_body]
pub(crate) fn new_batch(schema: Arc<Schema>, columns: Vec<Column>) -> (batch: Result<
    TableBatch,
    ArrowError,
>)
    requires
        forall|i: int| 0 <= i < columns@.len() ==> #[trigger] column_kind(columns@[i])
            != ColumnKind::Other,
    ensures
        batch is Ok <==> columns_fit(
            schema_fields(*schema),
            columns@.map_values(|column: Column| column_kind(column)),
            columns@.map_values(|column: Column| column_cells(column)),
        ),
        batch matches Ok(b) ==> {
            &&& batch_fields(b) == schema_fields(*schema)
            &&& batch_metadata(b) == schema_metadata(*schema)
            &&& batch_rows(b) == column_cells(columns@[0]).len()
            &&& batch_columns(b) == Seq::new(
                columns@.len(),
                |i: int|
                    ColumnView {
                        name: schema_fields(*schema)[i].name,
                        kind: column_kind(columns@[i]),
                        cells: column_cells(columns@[i]),
                    },
            )
        },
        batch matches Err(e) ==> may_reject(
            schema_fields(*schema),
            columns@.map_values(|column: Column| column_kind(column)),
            columns@.map_values(|column: Column| column_cells(column)),
            e,
        ),
{
    let columns = columns.into_iter().map(|column| column.array).collect();
    Ok(TableBatch { batch: RecordBatch::try_new(schema, columns)? })
}

/// Counts the rows of a batch with `arrow_array::RecordBatch::num_rows`.
#[verifier::external_body]
pub(crate) fn num_rows(batch: &TableBatch) -> (rows: usize)
    ensures
        rows == batch_rows(*batch),
{
    batch.batch.num_rows()
}

/// Finds a column with `arrow_array::RecordBatch::column_by_name`.
///
/// Taken for granted: it gives the first column of that name, if there is one, and
/// a column of a batch is as long as the batch has rows.
#[verifier::external_body]
pub(crate) fn column_by_name(batch: &TableBatch, name: &str) -> (column: Option<Column>)
    ensures
        column is Some <==> first_named(batch_columns(*batch), name@) is Some,
        column matches Some(c) ==> {
            let found = batch_columns(*batch)[first_named(batch_columns(*batch), name@)->0];
            &&& column_kind(c) == found.kind
            &&& column_cells(c) == found.cells
            &&& column_cells(c).len() == batch_rows(*batch)
        },
{
    let array = batch.batch.column_by_name(name)?;
    Some(Column { array: array.clone() })
}

} // verus!
