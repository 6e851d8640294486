//! How documents are laid out in record batches, and how they are read back.
use arrow_schema::{ArrowError, Schema};
use std::sync::Arc;
use vstd::prelude::*;

use crate::columns::{
    column_by_name, downcast_floats, downcast_strings, float_at, new_batch, new_float_list_column,
    new_schema, new_string_column, num_rows, string_at, Column, FieldType, FloatColumn,
    StringColumn, TableBatch, TableField,
};
use crate::document::Document;
use crate::error::EmbedStoreError;
use crate::store::EmbedStore;
#[allow(unused_imports)]
use crate::columns::{
    batch_fields, batch_metadata, column_cells, column_kind, columns_fit, first_named, float_values,
    list_cells, may_reject, row_values, schema_fields, schema_metadata, schema_view, string_values,
    string_views, text_cell, total_bytes, BatchView, Cell, CellValue, ColumnKind, ColumnView,
    FieldView, SchemaView,
};
#[allow(unused_imports)]
use crate::document::{document_views, DocumentView};

verus! {

/// The column of identifiers.
pub const COLUMN_ID: &'static str = "id";

/// The column of embeddings.
pub const COLUMN_EMBEDDINGS: &'static str = "embeddings";

/// The column of texts.
pub const COLUMN_TEXT: &'static str = "text";

/// The column of distances that a nearest-neighbour search adds.
pub const COLUMN_DISTANCE: &'static str = "_distance";

/// The name that the items of an embedding go by.
pub const EMBEDDING_ITEM: &'static str = "item";

// ---------------------------------------------------------------------------
// The schema
// ---------------------------------------------------------------------------

/// The kind of a column of embeddings of the given size.
pub open spec fn embedding_kind(size: int) -> ColumnKind {
    ColumnKind::FloatList { item_name: EMBEDDING_ITEM@, item_nullable: true, size }
}

/// The columns of a table of documents: the embeddings, which may be missing, the
/// texts and the identifiers.
pub open spec fn table_fields(size: int) -> Seq<FieldView> {
    seq![
        FieldView {
            name: COLUMN_EMBEDDINGS@,
            kind: embedding_kind(size),
            nullable: true,
            metadata: Map::empty(),
        },
        FieldView {
            name: COLUMN_TEXT@,
            kind: ColumnKind::Utf8,
            nullable: false,
            metadata: Map::empty(),
        },
        FieldView {
            name: COLUMN_ID@,
            kind: ColumnKind::Utf8,
            nullable: false,
            metadata: Map::empty(),
        },
    ]
}

/// The schema of a table of documents, without metadata.
pub open spec fn table_schema(size: int) -> SchemaView {
    SchemaView { fields: table_fields(size), metadata: Map::empty() }
}

impl EmbedStore {
    /// The schema of a table of documents whose embeddings have
    /// `dimensions_count` dimensions.
    pub fn generate_schema(dimensions_count: usize) -> (schema: Arc<Schema>)
        ensures
            schema_view(*schema) == table_schema((dimensions_count as i32) as int),
    {
        let size: i32 = #[verifier::truncate]
        (dimensions_count as i32);
        let embeddings = TableField {
            name: COLUMN_EMBEDDINGS.to_string(),
            field_type: FieldType::FloatList {
                item_name: EMBEDDING_ITEM.to_string(),
                item_nullable: true,
                size,
            },
            nullable: true,
        };
        let text = TableField {
            name: COLUMN_TEXT.to_string(),
            field_type: FieldType::Utf8,
            nullable: false,
        };
        let id = TableField {
            name: COLUMN_ID.to_string(),
            field_type: FieldType::Utf8,
            nullable: false,
        };
        let fields = vec![embeddings, text, id];
        assert(fields@.map_values(|field: TableField| field@) =~= table_fields(size as int));
        Arc::new(new_schema(fields))
    }
}

// ---------------------------------------------------------------------------
// Writing
// ---------------------------------------------------------------------------

/// The views of a sequence of embeddings.
pub open spec fn embedding_views(embeddings: Seq<Vec<u32>>) -> Seq<Seq<u32>> {
    embeddings.map_values(|embedding: Vec<u32>| embedding@)
}

/// Each item, as one that is there.
pub open spec fn present<T>(items: Seq<T>) -> Seq<Option<T>> {
    items.map_values(|item: T| Some(item))
}

/// Arrow can hold these columns: there is an embedding, whose size is a 32-bit
/// number; all embeddings together have the length that as many embeddings of this
/// size have; and the strings of each column take up no more bytes than a signed
/// 32-bit number counts.
pub open spec fn storable(
    embeddings: Seq<Seq<u32>>,
    text: Seq<Seq<char>>,
    ids: Seq<Seq<char>>,
) -> bool {
    &&& embeddings.len() > 0
    &&& embeddings[0].len() <= i32::MAX
    &&& embeddings.flatten().len() == embeddings.len() * embeddings[0].len()
    &&& total_bytes(text) <= i32::MAX
    &&& total_bytes(ids) <= i32::MAX
}

/// The kinds of the columns that documents are laid out in.
pub open spec fn record_kinds(embeddings: Seq<Seq<u32>>) -> Seq<ColumnKind> {
    seq![embedding_kind(embeddings[0].len() as int), ColumnKind::Utf8, ColumnKind::Utf8]
}

/// The cells of the columns that documents are laid out in. The first embedding
/// has the size that all of them are cut to.
pub open spec fn record_cells(
    embeddings: Seq<Seq<u32>>,
    text: Seq<Seq<char>>,
    ids: Seq<Seq<char>>,
) -> Seq<Seq<Cell>> {
    seq![
        list_cells(
            present(embeddings.flatten()),
            embeddings.len(),
            embeddings[0].len() as int,
        ),
        text.map_values(|t: Seq<char>| text_cell(t)),
        ids.map_values(|id: Seq<char>| text_cell(id)),
    ]
}

/// The documents fit a table with the given columns.
pub open spec fn records_fit(
    fields: Seq<FieldView>,
    embeddings: Seq<Seq<u32>>,
    text: Seq<Seq<char>>,
    ids: Seq<Seq<char>>,
) -> bool {
    columns_fit(fields, record_kinds(embeddings), record_cells(embeddings, text, ids))
}

/// This may be the error with which Arrow rejects the documents.
pub open spec fn may_reject_records(
    fields: Seq<FieldView>,
    embeddings: Seq<Seq<u32>>,
    text: Seq<Seq<char>>,
    ids: Seq<Seq<char>>,
    error: ArrowError,
) -> bool {
    may_reject(fields, record_kinds(embeddings), record_cells(embeddings, text, ids), error)
}

/// The batch in which documents are written to a table with the given columns.
pub open spec fn record_batch(
    schema: SchemaView,
    embeddings: Seq<Seq<u32>>,
    text: Seq<Seq<char>>,
    ids: Seq<Seq<char>>,
) -> BatchView {
    BatchView {
        schema,
        rows: embeddings.len(),
        columns: Seq::new(
            3,
            |i: int|
                ColumnView {
                    name: schema.fields[i].name,
                    kind: record_kinds(embeddings)[i],
                    cells: record_cells(embeddings, text, ids)[i],
                },
        ),
    }
}

impl EmbedStore {
    /// Wraps every item, and every row, in an `Option` that is there.
    ///
    /// ```text
    /// [[1, 2, 3], [4, 5, 6]]
    /// [Some([Some(1), Some(2), Some(3)]), Some([Some(4), Some(5), Some(6)])]
    /// ```
    pub fn wrap_in_option<T>(source: Vec<Vec<T>>) -> (wrapped: Vec<Option<Vec<Option<T>>>>)
        ensures
            wrapped@.len() == source@.len(),
            forall|i: int|
                0 <= i < source@.len() ==> {
                    &&& (#[trigger] wrapped@[i]) is Some
                    &&& wrapped@[i]->0@ == present(source@[i]@)
                },
            forall|i: int, j: int|
                0 <= i < source@.len() && 0 <= j < source@[i]@.len() ==> {
                    &&& wrapped@[i]->0@.len() == source@[i]@.len()
                    &&& #[trigger] wrapped@[i]->0@[j] == Some(source@[i]@[j])
                },
    {
        let mut wrapped: Vec<Option<Vec<Option<T>>>> = Vec::new();
        for inner_vec in rows: source.into_iter()
            invariant
                wrapped@.len() == rows.index(),
                rows.seq() == source@,
                forall|i: int|
                    0 <= i < wrapped@.len() ==> {
                        &&& (#[trigger] wrapped@[i]) is Some
                        &&& wrapped@[i]->0@ == present(source@[i]@)
                    },
        {
            let mut row: Vec<Option<T>> = Vec::new();
            let ghost inner = inner_vec@;
            for item in items: inner_vec.into_iter()
                invariant
                    row@.len() == items.index(),
                    items.seq() == inner,
                    forall|i: int| 0 <= i < row@.len() ==> #[trigger] row@[i] == Some(inner[i]),
            {
                row.push(Some(item));
            }
            assert(row@ =~= present(inner));
            wrapped.push(Some(row));
        }
        wrapped
    }

    /// Lays documents out in a record batch: their embeddings, their texts and their
    /// identifiers, one for one. Arrow rejects them where they do not fit the
    /// schema.
    pub fn create_record_batch(
        embeddings: Vec<Vec<u32>>,
        text: Vec<String>,
        alt_ids: Vec<String>,
        schema: Arc<Schema>,
    ) -> (batches: Result<Vec<TableBatch>, ArrowError>)
        requires
            storable(embedding_views(embeddings@), string_views(text@), string_views(alt_ids@)),
        ensures
            batches is Ok <==> records_fit(
                schema_fields(*schema),
                embedding_views(embeddings@),
                string_views(text@),
                string_views(alt_ids@),
            ),
            batches matches Ok(b) ==> {
                &&& b@.len() == 1
                &&& b@[0]@ == record_batch(
                    schema_view(*schema),
                    embedding_views(embeddings@),
                    string_views(text@),
                    string_views(alt_ids@),
                )
                &&& batch_fields(b@[0]) == schema_fields(*schema)
                &&& batch_metadata(b@[0]) == schema_metadata(*schema)
            },
            batches matches Err(e) ==> may_reject_records(
                schema_fields(*schema),
                embedding_views(embeddings@),
                string_views(text@),
                string_views(alt_ids@),
                e,
            ),
    {
        let ghost vectors = embedding_views(embeddings@);
        assert(vectors[0] == embeddings@[0]@);
        let dimensions_count: i32 = embeddings[0].len() as i32;
        let wrapped_source = Self::wrap_in_option(embeddings);
        proof {
            assert(row_values(wrapped_source@) =~= vectors.map_values(|v: Seq<u32>| present(v)));
            lemma_flatten_present(vectors);
        }
        let ghost texts = string_views(text@);
        let ghost ids = string_views(alt_ids@);
        let columns = vec![
            new_float_list_column(wrapped_source, dimensions_count),
            new_string_column(text),
            new_string_column(alt_ids),
        ];
        proof {
            let kinds = columns@.map_values(|column: Column| column_kind(column));
            let cells = columns@.map_values(|column: Column| column_cells(column));
            assert(kinds =~= record_kinds(vectors));
            assert(cells[1] =~= record_cells(vectors, texts, ids)[1]);
            assert(cells[2] =~= record_cells(vectors, texts, ids)[2]);
            assert(cells =~= record_cells(vectors, texts, ids));
        }
        match new_batch(schema, columns) {
            Ok(batch) => {
                let batches = vec![batch];
                assert(batches@[0]@ =~= record_batch(
                    schema_view(*schema),
                    vectors,
                    texts,
                    ids,
                ));
                Ok(batches)
            },
            Err(e) => Err(e),
        }
    }
}

/// Adds up the bytes that the strings take up in UTF-8, as long as they are no
/// more than `limit`.
fn bytes_within(strings: &Vec<String>, limit: usize) -> (within: bool)
    ensures
        within == (total_bytes(string_views(strings@)) <= limit),
{
    let ghost views = string_views(strings@);
    let mut total: usize = 0;
    let mut next: usize = 0;
    assert(views.take(0) =~= Seq::empty());
    while next < strings.len()
        invariant
            next <= strings@.len(),
            views == string_views(strings@),
            total == total_bytes(views.take(next as int)),
            total <= limit,
        decreases strings@.len() - next,
    {
        let length: usize = strings[next].as_str().as_bytes().len();
        proof {
            assert(views.take(next + 1).drop_last() =~= views.take(next as int));
            assert(views.take(next + 1).last() == strings@[next as int]@);
            lemma_total_bytes_grows(views, next + 1);
        }
        if length > limit - total {
            return false;
        }
        total = total + length;
        next = next + 1;
    }
    assert(views.take(next as int) =~= views);
    true
}

/// More strings take up no fewer bytes.
proof fn lemma_total_bytes_grows(strings: Seq<Seq<char>>, n: int)
    requires
        0 <= n <= strings.len(),
    ensures
        total_bytes(strings.take(n)) <= total_bytes(strings),
    decreases strings.len(),
{
    if n < strings.len() {
        lemma_total_bytes_grows(strings.drop_last(), n);
        assert(strings.drop_last().take(n) =~= strings.take(n));
    } else {
        assert(strings.take(n) =~= strings);
    }
}

/// Whether Arrow can hold these columns.
pub fn is_storable(embeddings: &Vec<Vec<u32>>, text: &Vec<String>, ids: &Vec<String>) -> (fits:
    bool)
    ensures
        fits == storable(
            embedding_views(embeddings@),
            string_views(text@),
            string_views(ids@),
        ),
        fits <==> {
            &&& embeddings@.len() > 0
            &&& embeddings@[0]@.len() <= 0x7fff_ffff
            &&& embedding_views(embeddings@).flatten().len() == embeddings@.len()
                * embeddings@[0]@.len()
            &&& total_bytes(string_views(text@)) <= 0x7fff_ffff
            &&& total_bytes(string_views(ids@)) <= 0x7fff_ffff
        },
{
    let ghost views = embedding_views(embeddings@);
    if embeddings.len() == 0 {
        return false;
    }
    assert(views[0] == embeddings@[0]@);
    let size: usize = embeddings[0].len();
    if size > i32::MAX as usize {
        return false;
    }
    let mut total: u128 = 0;
    let mut next: usize = 0;
    assert(views.take(0) =~= Seq::empty());
    while next < embeddings.len()
        invariant
            next <= embeddings@.len(),
            views == embedding_views(embeddings@),
            total == views.take(next as int).flatten().len(),
            total <= next * usize::MAX,
        decreases embeddings@.len() - next,
    {
        let length: usize = embeddings[next].len();
        proof {
            assert(views.take(next + 1) =~= views.take(next as int).push(embeddings@[next as int]@));
            views.take(next as int).lemma_flatten_push(embeddings@[next as int]@);
            assert(next * usize::MAX + usize::MAX == (next + 1) * usize::MAX) by (nonlinear_arith);
            assert((next + 1) * usize::MAX <= usize::MAX * usize::MAX) by (nonlinear_arith)
                requires
                    next < usize::MAX,
            ;
            assert(usize::MAX * usize::MAX <= u128::MAX) by (nonlinear_arith)
                requires
                    usize::MAX <= 0xffff_ffff_ffff_ffff,
            ;
        }
        total = total + length as u128;
        next = next + 1;
    }
    assert(views.take(next as int) =~= views);
    assert(0 <= embeddings@.len() * size <= usize::MAX * usize::MAX <= u128::MAX)
        by (nonlinear_arith)
        requires
            0 <= embeddings@.len() <= usize::MAX,
            0 <= size <= usize::MAX,
            usize::MAX <= 0xffff_ffff_ffff_ffff,
    ;
    total == embeddings.len() as u128 * size as u128 && bytes_within(text, i32::MAX as usize)
        && bytes_within(ids, i32::MAX as usize)
}

/// Flattening rows and marking the items as there can be done in either order.
proof fn lemma_flatten_present<T>(rows: Seq<Seq<T>>)
    ensures
        rows.map_values(|row: Seq<T>| present(row)).flatten() == present(rows.flatten()),
    decreases rows.len(),
{
    let marked = rows.map_values(|row: Seq<T>| present(row));
    if rows.len() > 0 {
        lemma_flatten_present(rows.drop_first());
        assert(marked.drop_first() =~= rows.drop_first().map_values(|row: Seq<T>| present(row)));
        assert(marked.first() == present(rows.first()));
    }
    assert(marked.flatten() =~= present(rows.flatten()));
}

// ---------------------------------------------------------------------------
// Reading
// ---------------------------------------------------------------------------

/// Why a batch has no column of the given name and kind, if it has none.
pub open spec fn column_fault(
    batch: BatchView,
    name: Seq<char>,
    kind: ColumnKind,
) -> Option<Seq<char>> {
    match first_named(batch.columns, name) {
        None => Some(name + " column not found"@),
        Some(i) => if batch.columns[i].kind == kind {
            None
        } else {
            Some("Failed downcasting "@ + name + " column"@)
        },
    }
}

/// Why no documents can be read from a batch, if none can.
pub open spec fn documents_fault(batch: BatchView) -> Option<Seq<char>> {
    match column_fault(batch, COLUMN_ID@, ColumnKind::Utf8) {
        Some(message) => Some(message),
        None => column_fault(batch, COLUMN_TEXT@, ColumnKind::Utf8),
    }
}

/// Why no documents can be read with their distances, if none can.
pub open spec fn distances_fault(batch: BatchView) -> Option<Seq<char>> {
    match documents_fault(batch) {
        Some(message) => Some(message),
        None => column_fault(batch, COLUMN_DISTANCE@, ColumnKind::Float32),
    }
}

/// The cell in the given row of the column of the given name.
pub open spec fn cell_at(batch: BatchView, name: Seq<char>, row: int) -> CellValue {
    batch.columns[first_named(batch.columns, name)->0].cells[row].value
}

/// The document in a row of a batch.
pub open spec fn document_at(batch: BatchView, row: int) -> DocumentView {
    DocumentView {
        id: cell_at(batch, COLUMN_ID@, row)->Text_0,
        text: cell_at(batch, COLUMN_TEXT@, row)->Text_0,
    }
}

/// The documents in a batch, row by row.
pub open spec fn batch_documents(batch: BatchView) -> Seq<DocumentView> {
    Seq::new(batch.rows, |row: int| document_at(batch, row))
}

/// The documents in a batch with their distances, row by row.
pub open spec fn batch_distances(batch: BatchView) -> Seq<(DocumentView, u32)> {
    Seq::new(
        batch.rows,
        |row: int| (document_at(batch, row), cell_at(batch, COLUMN_DISTANCE@, row)->Float_0),
    )
}

/// The documents in all batches, batch by batch. The first batch that cannot be
/// read spoils them all.
pub open spec fn read_documents(batches: Seq<BatchView>) -> Result<Seq<DocumentView>, Seq<char>>
    decreases batches.len(),
{
    if batches.len() == 0 {
        Ok(Seq::empty())
    } else {
        match read_documents(batches.drop_last()) {
            Err(message) => Err(message),
            Ok(documents) => match documents_fault(batches.last()) {
                Some(message) => Err(message),
                None => Ok(documents + batch_documents(batches.last())),
            },
        }
    }
}

/// The documents in all batches with their distances, batch by batch. The first
/// batch that cannot be read spoils them all.
pub open spec fn read_distances(batches: Seq<BatchView>) -> Result<
    Seq<(DocumentView, u32)>,
    Seq<char>,
>
    decreases batches.len(),
{
    if batches.len() == 0 {
        Ok(Seq::empty())
    } else {
        match read_distances(batches.drop_last()) {
            Err(message) => Err(message),
            Ok(documents) => match distances_fault(batches.last()) {
                Some(message) => Err(message),
                None => Ok(documents + batch_distances(batches.last())),
            },
        }
    }
}

/// The views of a sequence of batches.
pub open spec fn batch_views(batches: Seq<TableBatch>) -> Seq<BatchView> {
    batches.map_values(|batch: TableBatch| batch@)
}

/// The views of a sequence of documents with their distances.
pub open spec fn distance_views(documents: Seq<(Document, u32)>) -> Seq<(DocumentView, u32)> {
    documents.map_values(|pair: (Document, u32)| (pair.0@, pair.1))
}

/// A prefix of the batches that cannot be read spoils them all.
proof fn lemma_fault_stays(batches: Seq<BatchView>, n: int)
    requires
        0 <= n <= batches.len(),
    ensures
        read_documents(batches.take(n)) is Err ==> read_documents(batches) == read_documents(
            batches.take(n),
        ),
        read_distances(batches.take(n)) is Err ==> read_distances(batches) == read_distances(
            batches.take(n),
        ),
    decreases batches.len(),
{
    if n < batches.len() {
        lemma_fault_stays(batches.drop_last(), n);
        assert(batches.drop_last().take(n) =~= batches.take(n));
    } else {
        assert(batches.take(n) =~= batches);
    }
}

impl EmbedStore {
    /// Finds the column of strings with the given name.
    pub fn downcast_string_column(record_batch: &TableBatch, column_name: &str) -> (column: Result<
        StringColumn,
        EmbedStoreError,
    >)
        ensures
            match column_fault(record_batch@, column_name@, ColumnKind::Utf8) {
                Some(message) => column matches Err(EmbedStoreError::Runtime(m)) && m@ == message,
                None => {
                    &&& column is Ok
                    &&& string_values(column->Ok_0).len() == record_batch@.rows
                    &&& forall|row: int|
                        0 <= row < record_batch@.rows ==> #[trigger] string_values(column->Ok_0)[row]
                            == cell_at(record_batch@, column_name@, row)->Text_0
                },
            },
    {
        match Self::find_column(record_batch, column_name) {
            Err(e) => Err(e),
            Ok(column) => match downcast_strings(&column) {
                None => Err(Self::wrong_column_type(column_name)),
                Some(strings) => {
                    assert forall|row: int|
                        0 <= row < record_batch@.rows implies #[trigger] string_values(strings)[row]
                            == cell_at(record_batch@, column_name@, row)->Text_0 by {
                        assert(column_cells(column)[row].value == CellValue::Text(
                            string_values(strings)[row],
                        ));
                    }
                    Ok(strings)
                },
            },
        }
    }

    /// Finds the column of floats with the given name.
    pub fn downcast_float_column(record_batch: &TableBatch, column_name: &str) -> (column: Result<
        FloatColumn,
        EmbedStoreError,
    >)
        ensures
            match column_fault(record_batch@, column_name@, ColumnKind::Float32) {
                Some(message) => column matches Err(EmbedStoreError::Runtime(m)) && m@ == message,
                None => {
                    &&& column is Ok
                    &&& float_values(column->Ok_0).len() == record_batch@.rows
                    &&& forall|row: int|
                        0 <= row < record_batch@.rows ==> #[trigger] float_values(column->Ok_0)[row]
                            == cell_at(record_batch@, column_name@, row)->Float_0
                },
            },
    {
        match Self::find_column(record_batch, column_name) {
            Err(e) => Err(e),
            Ok(column) => match downcast_floats(&column) {
                None => Err(Self::wrong_column_type(column_name)),
                Some(floats) => {
                    assert forall|row: int|
                        0 <= row < record_batch@.rows implies #[trigger] float_values(floats)[row]
                            == cell_at(record_batch@, column_name@, row)->Float_0 by {
                        assert(column_cells(column)[row].value == CellValue::Float(
                            float_values(floats)[row],
                        ));
                    }
                    Ok(floats)
                },
            },
        }
    }

    /// Finds the first column with the given name.
    fn find_column(record_batch: &TableBatch, column_name: &str) -> (column: Result<
        Column,
        EmbedStoreError,
    >)
        ensures
            match first_named(record_batch@.columns, column_name@) {
                None => column matches Err(EmbedStoreError::Runtime(m)) && m@ == column_name@
                    + " column not found"@,
                Some(i) => {
                    &&& column is Ok
                    &&& column_kind(column->Ok_0) == record_batch@.columns[i].kind
                    &&& column_cells(column->Ok_0) == record_batch@.columns[i].cells
                    &&& column_cells(column->Ok_0).len() == record_batch@.rows
                },
            },
    {
        match column_by_name(record_batch, column_name) {
            Some(column) => Ok(column),
            None => {
                let mut message = column_name.to_string();
                message.append(" column not found");
                Err(EmbedStoreError::Runtime(message))
            },
        }
    }

    /// The error for a column that has another type than expected.
    fn wrong_column_type(column_name: &str) -> (error: EmbedStoreError)
        ensures
            error matches EmbedStoreError::Runtime(m) && m@ == "Failed downcasting "@ + column_name@
                + " column"@,
    {
        let mut message = "Failed downcasting ".to_string();
        message.append(column_name);
        message.append(" column");
        EmbedStoreError::Runtime(message)
    }

    /// Reads the documents out of the batches that a query returned.
    pub fn record_to_document(record_batches: Vec<TableBatch>) -> (documents: Result<
        Vec<Document>,
        EmbedStoreError,
    >)
        ensures
            match read_documents(batch_views(record_batches@)) {
                Ok(views) => documents matches Ok(d) && d@.len() == views.len()
                    && document_views(d@) == views,
                Err(message) => documents matches Err(EmbedStoreError::Runtime(m)) && m@ == message,
            },
    {
        let ghost views = batch_views(record_batches@);
        let mut documents: Vec<Document> = Vec::new();
        let mut next: usize = 0;
        assert(views.take(0) =~= Seq::empty());
        assert(document_views(documents@) =~= Seq::empty());
        while next < record_batches.len()
            invariant
                next <= record_batches@.len(),
                views == batch_views(record_batches@),
                read_documents(views.take(next as int)) == Ok::<Seq<DocumentView>, Seq<char>>(
                    document_views(documents@),
                ),
            decreases record_batches@.len() - next,
        {
            let record_batch = &record_batches[next];
            proof {
                assert(views.take(next + 1).drop_last() =~= views.take(next as int));
                assert(views.take(next + 1).last() == record_batch@);
                lemma_fault_stays(views, next + 1);
            }
            let ids = match Self::downcast_string_column(record_batch, COLUMN_ID) {
                Ok(ids) => ids,
                Err(e) => { return Err(e) },
            };
            let texts = match Self::downcast_string_column(record_batch, COLUMN_TEXT) {
                Ok(texts) => texts,
                Err(e) => { return Err(e) },
            };
            let rows: usize = num_rows(record_batch);
            let mut index: usize = 0;
            let ghost before = document_views(documents@);
            assert(before + batch_documents(record_batch@).take(0) =~= before);
            while index < rows
                invariant
                    index <= rows,
                    rows == record_batch@.rows,
                    string_values(ids).len() == rows,
                    string_values(texts).len() == rows,
                    forall|row: int|
                        0 <= row < rows ==> #[trigger] string_values(ids)[row] == cell_at(
                            record_batch@,
                            COLUMN_ID@,
                            row,
                        )->Text_0,
                    forall|row: int|
                        0 <= row < rows ==> #[trigger] string_values(texts)[row] == cell_at(
                            record_batch@,
                            COLUMN_TEXT@,
                            row,
                        )->Text_0,
                    document_views(documents@) == before + batch_documents(record_batch@).take(
                        index as int,
                    ),
                decreases rows - index,
            {
                let id = string_at(&ids, index);
                let text = string_at(&texts, index);
                let ghost earlier = documents@;
                documents.push(Document { id, text });
                assert(documents@.last()@ == document_at(record_batch@, index as int));
                assert(document_views(documents@) =~= document_views(earlier).push(
                    document_at(record_batch@, index as int),
                ));
                assert(document_views(documents@) =~= before + batch_documents(
                    record_batch@,
                ).take(index + 1));
                index = index + 1;
            }
            assert(batch_documents(record_batch@).take(rows as int) =~= batch_documents(
                record_batch@,
            ));
            next = next + 1;
        }
        assert(views.take(next as int) =~= views);
        Ok(documents)
    }

    /// Reads the documents out of the batches that a nearest-neighbour search
    /// returned, each with its distance as the bit pattern of a 32-bit float.
    pub fn record_to_document_with_distances(record_batches: Vec<TableBatch>) -> (documents: Result<
        Vec<(Document, u32)>,
        EmbedStoreError,
    >)
        ensures
            match read_distances(batch_views(record_batches@)) {
                Ok(views) => documents matches Ok(d) && d@.len() == views.len()
                    && distance_views(d@) == views,
                Err(message) => documents matches Err(EmbedStoreError::Runtime(m)) && m@ == message,
            },
    {
        let ghost views = batch_views(record_batches@);
        let mut docs_with_distance: Vec<(Document, u32)> = Vec::new();
        let mut next: usize = 0;
        assert(views.take(0) =~= Seq::empty());
        assert(distance_views(docs_with_distance@) =~= Seq::empty());
        while next < record_batches.len()
            invariant
                next <= record_batches@.len(),
                views == batch_views(record_batches@),
                read_distances(views.take(next as int)) == Ok::<
                    Seq<(DocumentView, u32)>,
                    Seq<char>,
                >(distance_views(docs_with_distance@)),
            decreases record_batches@.len() - next,
        {
            let record_batch = &record_batches[next];
            proof {
                assert(views.take(next + 1).drop_last() =~= views.take(next as int));
                assert(views.take(next + 1).last() == record_batch@);
                lemma_fault_stays(views, next + 1);
            }
            let ids = match Self::downcast_string_column(record_batch, COLUMN_ID) {
                Ok(ids) => ids,
                Err(e) => { return Err(e) },
            };
            let texts = match Self::downcast_string_column(record_batch, COLUMN_TEXT) {
                Ok(texts) => texts,
                Err(e) => { return Err(e) },
            };
            let distances = match Self::downcast_float_column(record_batch, COLUMN_DISTANCE) {
                Ok(distances) => distances,
                Err(e) => { return Err(e) },
            };
            let rows: usize = num_rows(record_batch);
            let mut index: usize = 0;
            let ghost before = distance_views(docs_with_distance@);
            assert(before + batch_distances(record_batch@).take(0) =~= before);
            while index < rows
                invariant
                    index <= rows,
                    rows == record_batch@.rows,
                    string_values(ids).len() == rows,
                    string_values(texts).len() == rows,
                    float_values(distances).len() == rows,
                    forall|row: int|
                        0 <= row < rows ==> #[trigger] string_values(ids)[row] == cell_at(
                            record_batch@,
                            COLUMN_ID@,
                            row,
                        )->Text_0,
                    forall|row: int|
                        0 <= row < rows ==> #[trigger] string_values(texts)[row] == cell_at(
                            record_batch@,
                            COLUMN_TEXT@,
                            row,
                        )->Text_0,
                    forall|row: int|
                        0 <= row < rows ==> #[trigger] float_values(distances)[row] == cell_at(
                            record_batch@,
                            COLUMN_DISTANCE@,
                            row,
                        )->Float_0,
                    distance_views(docs_with_distance@) == before + batch_distances(
                        record_batch@,
                    ).take(index as int),
                decreases rows - index,
            {
                let id = string_at(&ids, index);
                let text = string_at(&texts, index);
                let distance: u32 = float_at(&distances, index);
                let ghost earlier = docs_with_distance@;
                docs_with_distance.push((Document { id, text }, distance));
                let ghost pair = batch_distances(record_batch@)[index as int];
                assert((docs_with_distance@.last().0@, docs_with_distance@.last().1) == pair);
                assert(distance_views(docs_with_distance@) =~= distance_views(earlier).push(pair));
                assert(distance_views(docs_with_distance@) =~= before + batch_distances(
                    record_batch@,
                ).take(index + 1));
                index = index + 1;
            }
            assert(batch_distances(record_batch@).take(rows as int) =~= batch_distances(
                record_batch@,
            ));
            next = next + 1;
        }
        assert(views.take(next as int) =~= views);
        Ok(docs_with_distance)
    }
}

} // verus!
