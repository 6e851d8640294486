//! The operations of the store, as machines that never wait.
//!
//! An operation starts with a [`Step`]. A step asks for one piece of work, and
//! says as what the operation goes on once the work is done; or it is the end.
//! Whoever runs the operation does the work and hands the reply to
//! [`Operation::advance`].
use arrow_schema::{ArrowError, Schema};
use std::sync::Arc;
use vstd::prelude::*;

use crate::batches::{is_storable, COLUMN_EMBEDDINGS};
use crate::columns::TableBatch;
use crate::document::Document;
use crate::error::{DatabaseError, EmbedStoreError};
use crate::query::{TableQuery, LISTING_LIMIT, SEARCH_LIMIT};
use crate::store::EmbedStore;
#[allow(unused_imports)]
use crate::batches::{
    batch_views, distance_views, embedding_views, may_reject_records, read_distances,
    read_documents, record_batch, records_fit, storable, table_schema,
};
#[allow(unused_imports)]
use crate::columns::{schema_view, string_views, BatchView, SchemaView};
#[allow(unused_imports)]
use crate::document::{document_views, DocumentView};
#[allow(unused_imports)]
use crate::error::{DatabaseErrorView, ErrorView};
#[allow(unused_imports)]
use crate::query::{
    delete_predicate, filter_view, id_filter, limit_or, QueryView, QUERY_LIMIT,
};

verus! {

/// The directory of the database.
pub const DB_DIR: &'static str = "../data";

/// The name of the database.
pub const DB_NAME: &'static str = "sample-lancedb";

/// The name of the table that the documents are in.
pub const TABLE_NAME: &'static str = "documents";

/// How many dimensions the embeddings in the table have.
pub const EMBEDDING_DIMENSIONS: usize = 384;

// ---------------------------------------------------------------------------
// Requests and replies
// ---------------------------------------------------------------------------

/// A piece of work that an operation asks for.
#[derive(Debug)]
pub enum Request {
    /// Connect to the database.
    Connect { uri: String },
    /// List the names of the tables.
    ListTables,
    /// Open a table.
    OpenTable { name: String },
    /// Create an empty table.
    CreateTable { name: String, schema: Arc<Schema> },
    /// Compute the embeddings of documents.
    Embed { documents: Vec<String> },
    /// Look up the schema of the table.
    ReadSchema,
    /// Append rows to the table.
    Append { batches: Vec<TableBatch>, schema: Arc<Schema> },
    /// Count the rows of the table.
    CountRows,
    /// Run a query on the table, and read all of its result.
    RunQuery { query: TableQuery },
    /// Delete the rows that satisfy a predicate.
    DeleteRows { predicate: String },
    /// Create an index on columns of the table, of the kind that suits them best.
    CreateIndex { columns: Vec<String> },
}

/// What came of a request.
#[derive(Debug)]
pub enum Reply {
    /// The work is done, and there is nothing to report.
    Done,
    /// The names of the tables.
    Tables(Vec<String>),
    /// The embeddings, each the bit patterns of its 32-bit floats.
    Embedded(Vec<Vec<u32>>),
    /// The embedding model failed.
    NotEmbedded(anyhow::Error),
    /// The schema of the table.
    Schema(Arc<Schema>),
    /// The number of rows.
    Count(usize),
    /// The result of a query.
    Batches(Vec<TableBatch>),
    /// The database failed.
    Failed(DatabaseError),
    /// The result of a query broke off, with this explanation.
    Interrupted { message: String },
}

/// What an operation comes to when it succeeds.
#[derive(Debug)]
pub enum Outcome {
    /// The store is open.
    Opened,
    /// The work is done.
    Done,
    /// The number of documents in the store.
    Count(usize),
    /// The document that was looked up, if there is one.
    Found(Option<Document>),
    /// Documents, and how many there are in the store.
    Listed(Vec<Document>, usize),
    /// Documents with their distances, each the bit pattern of a 32-bit float.
    Ranked(Vec<(Document, u32)>),
}

/// An assumption of the store that turned out to be wrong. There is no way to go
/// on from here.
#[derive(Debug)]
pub enum Fault {
    /// The model returned no embedding for the documents.
    NoEmbedding,
    /// The embeddings do not have as many dimensions as the table expects.
    DimensionMismatch,
    /// Arrow cannot hold the documents.
    Unstorable,
    /// Arrow could not make a record batch of the documents.
    RejectedBatch(ArrowError),
    /// More than one document goes by the identifier.
    AmbiguousId,
}

/// An operation that waits for a reply.
#[derive(Debug)]
pub enum Operation {
    /// Opening the store: waits for the connection.
    Connecting,
    /// Opening the store: waits for the names of the tables.
    ListingTables,
    /// Opening the store: waits for the table.
    OpeningTable,
    /// Adding documents: waits for their embeddings.
    EmbeddingDocuments { ids: Vec<String>, text: Vec<String> },
    /// Adding documents: waits for the schema of the table.
    ReadingSchema { embeddings: Vec<Vec<u32>>, ids: Vec<String>, text: Vec<String> },
    /// Adding documents: waits until they are in the table.
    Appending,
    /// Deleting documents: waits until they are gone.
    Deleting,
    /// Replacing a document: waits until the old one is gone.
    Replacing { id: String, new_text: String },
    /// Waits for the number of documents.
    Counting,
    /// Listing all documents: waits for their number.
    CountingAll,
    /// Listing all documents: waits for them.
    ListingAll { total: usize },
    /// Looking up a document: waits for it.
    Fetching,
    /// Searching: waits for the embedding of the search text.
    EmbeddingQuery { filter: Option<String>, limit: usize },
    /// Searching: waits for the nearest documents.
    Searching,
    /// Waits for the index.
    Indexing,
}

/// How far an operation has come.
#[derive(Debug)]
pub enum Step {
    /// It asks for work, and goes on as `operation` when the reply is there.
    Ask { request: Request, operation: Operation },
    /// It is over.
    Finish(Result<Outcome, EmbedStoreError>),
    /// It cannot go on.
    Broken(Fault),
}

// ---------------------------------------------------------------------------
// Their views
// ---------------------------------------------------------------------------

/// A request, in plain sequences.
pub enum RequestView {
    Connect { uri: Seq<char> },
    ListTables,
    OpenTable { name: Seq<char> },
    CreateTable { name: Seq<char>, schema: SchemaView },
    Embed { documents: Seq<Seq<char>> },
    ReadSchema,
    Append { batches: Seq<BatchView>, schema: SchemaView },
    CountRows,
    RunQuery { query: QueryView },
    DeleteRows { predicate: Seq<char> },
    CreateIndex { columns: Seq<Seq<char>> },
}

/// A reply, in plain sequences.
pub enum ReplyView {
    Done,
    Tables(Seq<Seq<char>>),
    Embedded(Seq<Seq<u32>>),
    NotEmbedded(anyhow::Error),
    Schema(SchemaView),
    Count(nat),
    Batches(Seq<BatchView>),
    Failed(DatabaseErrorView),
    Interrupted { message: Seq<char> },
}

/// An outcome, in plain sequences.
pub enum OutcomeView {
    Opened,
    Done,
    Count(nat),
    Found(Option<DocumentView>),
    Listed(Seq<DocumentView>, nat),
    Ranked(Seq<(DocumentView, u32)>),
}

/// A fault, with its error.
pub enum FaultView {
    NoEmbedding,
    DimensionMismatch,
    Unstorable,
    RejectedBatch(ArrowError),
    AmbiguousId,
}

/// A waiting operation, in plain sequences.
pub enum OperationView {
    Connecting,
    ListingTables,
    OpeningTable,
    EmbeddingDocuments { ids: Seq<Seq<char>>, text: Seq<Seq<char>> },
    ReadingSchema { embeddings: Seq<Seq<u32>>, ids: Seq<Seq<char>>, text: Seq<Seq<char>> },
    Appending,
    Deleting,
    Replacing { id: Seq<char>, new_text: Seq<char> },
    Counting,
    CountingAll,
    ListingAll { total: nat },
    Fetching,
    EmbeddingQuery { filter: Option<Seq<char>>, limit: nat },
    Searching,
    Indexing,
}

/// A step, in plain sequences.
pub enum StepView {
    Ask { request: RequestView, operation: OperationView },
    Finish(Result<OutcomeView, ErrorView>),
    Broken(FaultView),
}

impl View for Request {
    type V = RequestView;

    open spec fn view(&self) -> RequestView {
        match self {
            Request::Connect { uri } => RequestView::Connect { uri: uri@ },
            Request::ListTables => RequestView::ListTables,
            Request::OpenTable { name } => RequestView::OpenTable { name: name@ },
            Request::CreateTable { name, schema } => RequestView::CreateTable {
                name: name@,
                schema: schema_view(**schema),
            },
            Request::Embed { documents } => RequestView::Embed {
                documents: string_views(documents@),
            },
            Request::ReadSchema => RequestView::ReadSchema,
            Request::Append { batches, schema } => RequestView::Append {
                batches: batch_views(batches@),
                schema: schema_view(**schema),
            },
            Request::CountRows => RequestView::CountRows,
            Request::RunQuery { query } => RequestView::RunQuery { query: query@ },
            Request::DeleteRows { predicate } => RequestView::DeleteRows { predicate: predicate@ },
            Request::CreateIndex { columns } => RequestView::CreateIndex {
                columns: string_views(columns@),
            },
        }
    }
}

impl View for Reply {
    type V = ReplyView;

    open spec fn view(&self) -> ReplyView {
        match self {
            Reply::Done => ReplyView::Done,
            Reply::Tables(names) => ReplyView::Tables(string_views(names@)),
            Reply::Embedded(embeddings) => ReplyView::Embedded(embedding_views(embeddings@)),
            Reply::NotEmbedded(e) => ReplyView::NotEmbedded(*e),
            Reply::Schema(schema) => ReplyView::Schema(schema_view(**schema)),
            Reply::Count(count) => ReplyView::Count(*count as nat),
            Reply::Batches(batches) => ReplyView::Batches(batch_views(batches@)),
            Reply::Failed(e) => ReplyView::Failed(e@),
            Reply::Interrupted { message } => ReplyView::Interrupted { message: message@ },
        }
    }
}

impl View for Outcome {
    type V = OutcomeView;

    open spec fn view(&self) -> OutcomeView {
        match self {
            Outcome::Opened => OutcomeView::Opened,
            Outcome::Done => OutcomeView::Done,
            Outcome::Count(count) => OutcomeView::Count(*count as nat),
            Outcome::Found(Some(document)) => OutcomeView::Found(Some(document@)),
            Outcome::Found(None) => OutcomeView::Found(None),
            Outcome::Listed(documents, total) => OutcomeView::Listed(
                document_views(documents@),
                *total as nat,
            ),
            Outcome::Ranked(documents) => OutcomeView::Ranked(distance_views(documents@)),
        }
    }
}

impl View for Fault {
    type V = FaultView;

    open spec fn view(&self) -> FaultView {
        match self {
            Fault::NoEmbedding => FaultView::NoEmbedding,
            Fault::DimensionMismatch => FaultView::DimensionMismatch,
            Fault::Unstorable => FaultView::Unstorable,
            Fault::RejectedBatch(e) => FaultView::RejectedBatch(*e),
            Fault::AmbiguousId => FaultView::AmbiguousId,
        }
    }
}

impl View for Operation {
    type V = OperationView;

    open spec fn view(&self) -> OperationView {
        match self {
            Operation::Connecting => OperationView::Connecting,
            Operation::ListingTables => OperationView::ListingTables,
            Operation::OpeningTable => OperationView::OpeningTable,
            Operation::EmbeddingDocuments { ids, text } => OperationView::EmbeddingDocuments {
                ids: string_views(ids@),
                text: string_views(text@),
            },
            Operation::ReadingSchema { embeddings, ids, text } => OperationView::ReadingSchema {
                embeddings: embedding_views(embeddings@),
                ids: string_views(ids@),
                text: string_views(text@),
            },
            Operation::Appending => OperationView::Appending,
            Operation::Deleting => OperationView::Deleting,
            Operation::Replacing { id, new_text } => OperationView::Replacing {
                id: id@,
                new_text: new_text@,
            },
            Operation::Counting => OperationView::Counting,
            Operation::CountingAll => OperationView::CountingAll,
            Operation::ListingAll { total } => OperationView::ListingAll { total: *total as nat },
            Operation::Fetching => OperationView::Fetching,
            Operation::EmbeddingQuery { filter: Some(filter), limit } => {
                OperationView::EmbeddingQuery { filter: Some(filter@), limit: *limit as nat }
            },
            Operation::EmbeddingQuery { filter: None, limit } => OperationView::EmbeddingQuery {
                filter: None,
                limit: *limit as nat,
            },
            Operation::Searching => OperationView::Searching,
            Operation::Indexing => OperationView::Indexing,
        }
    }
}

impl View for Step {
    type V = StepView;

    open spec fn view(&self) -> StepView {
        match self {
            Step::Ask { request, operation } => StepView::Ask {
                request: request@,
                operation: operation@,
            },
            Step::Finish(Ok(outcome)) => StepView::Finish(Ok(outcome@)),
            Step::Finish(Err(e)) => StepView::Finish(Err(e@)),
            Step::Broken(fault) => StepView::Broken(fault@),
        }
    }
}

// ---------------------------------------------------------------------------
// How operations start
// ---------------------------------------------------------------------------

/// Where the database is.
pub open spec fn db_uri() -> Seq<char> {
    DB_DIR@ + "/"@ + DB_NAME@
}

/// Opening the store starts by connecting to the database.
pub open spec fn start_open() -> StepView {
    StepView::Ask {
        request: RequestView::Connect { uri: db_uri() },
        operation: OperationView::Connecting,
    }
}

/// Adding documents starts by embedding their texts.
pub open spec fn start_add(ids: Seq<Seq<char>>, text: Seq<Seq<char>>) -> StepView {
    StepView::Ask {
        request: RequestView::Embed { documents: text },
        operation: OperationView::EmbeddingDocuments { ids, text },
    }
}

/// Counting documents is one request.
pub open spec fn start_record_count() -> StepView {
    StepView::Ask { request: RequestView::CountRows, operation: OperationView::Counting }
}

/// Searching starts by embedding the search text.
pub open spec fn start_search(
    search_text: Seq<char>,
    filter: Option<Seq<char>>,
    limit: nat,
) -> StepView {
    StepView::Ask {
        request: RequestView::Embed { documents: seq![search_text] },
        operation: OperationView::EmbeddingQuery { filter, limit },
    }
}

/// Looking up a document is a query for its identifier.
pub open spec fn start_get(id: Seq<char>) -> StepView {
    StepView::Ask {
        request: RequestView::RunQuery {
            query: QueryView {
                vector: None,
                filter: Some(id_filter(id)),
                limit: QUERY_LIMIT as nat,
            },
        },
        operation: OperationView::Fetching,
    }
}

/// Listing documents starts by counting them.
pub open spec fn start_get_all() -> StepView {
    StepView::Ask { request: RequestView::CountRows, operation: OperationView::CountingAll }
}

/// Deleting documents is one request.
pub open spec fn start_delete(ids: Seq<Seq<char>>) -> StepView {
    StepView::Ask {
        request: RequestView::DeleteRows { predicate: delete_predicate(ids) },
        operation: OperationView::Deleting,
    }
}

/// Replacing a document starts by deleting the old one.
pub open spec fn start_update(id: Seq<char>, text: Seq<char>) -> StepView {
    StepView::Ask {
        request: RequestView::DeleteRows { predicate: delete_predicate(seq![id]) },
        operation: OperationView::Replacing { id, new_text: text },
    }
}

/// Creating the index is one request.
pub open spec fn start_create_index() -> StepView {
    StepView::Ask {
        request: RequestView::CreateIndex { columns: seq![COLUMN_EMBEDDINGS@] },
        operation: OperationView::Indexing,
    }
}

// ---------------------------------------------------------------------------
// How operations go on
// ---------------------------------------------------------------------------

/// The reply is of a sort that the operation waits for.
pub open spec fn awaits(operation: OperationView, reply: ReplyView) -> bool {
    match operation {
        OperationView::Connecting
        | OperationView::OpeningTable
        | OperationView::Appending
        | OperationView::Deleting
        | OperationView::Replacing { .. }
        | OperationView::Indexing => reply is Done || reply is Failed,
        OperationView::ListingTables => reply is Tables || reply is Failed,
        OperationView::EmbeddingDocuments { .. }
        | OperationView::EmbeddingQuery { .. } => reply is Embedded || reply is NotEmbedded,
        OperationView::ReadingSchema { .. } => reply is Schema || reply is Failed,
        OperationView::Counting | OperationView::CountingAll => reply is Count || reply is Failed,
        OperationView::ListingAll { .. }
        | OperationView::Fetching
        | OperationView::Searching => reply is Batches || reply is Failed || reply is Interrupted,
    }
}

/// The request that opens the table, or creates it if it is not there.
pub open spec fn table_request(table_names: Seq<Seq<char>>, table_name: Seq<char>) -> RequestView {
    if table_names.contains(table_name) {
        RequestView::OpenTable { name: table_name }
    } else {
        RequestView::CreateTable {
            name: table_name,
            schema: table_schema(EMBEDDING_DIMENSIONS as int),
        }
    }
}

/// The operation is over, and failed.
pub open spec fn failed(error: ErrorView) -> StepView {
    StepView::Finish(Err(error))
}

/// The operation is over, and went well.
pub open spec fn finished(outcome: OutcomeView) -> StepView {
    StepView::Finish(Ok(outcome))
}

/// How adding documents goes on with their embeddings.
pub open spec fn after_embedding(
    ids: Seq<Seq<char>>,
    text: Seq<Seq<char>>,
    embeddings: Seq<Seq<u32>>,
) -> StepView {
    if embeddings.len() == 0 {
        StepView::Broken(FaultView::NoEmbedding)
    } else if embeddings[0].len() != EMBEDDING_DIMENSIONS {
        StepView::Broken(FaultView::DimensionMismatch)
    } else {
        StepView::Ask {
            request: RequestView::ReadSchema,
            operation: OperationView::ReadingSchema { embeddings, ids, text },
        }
    }
}

/// How adding documents may go on with the schema of the table. Only the error with
/// which Arrow rejects documents is left to Arrow.
pub open spec fn after_schema(
    embeddings: Seq<Seq<u32>>,
    ids: Seq<Seq<char>>,
    text: Seq<Seq<char>>,
    schema: SchemaView,
    step: StepView,
) -> bool {
    if !storable(embeddings, text, ids) {
        step == StepView::Broken(FaultView::Unstorable)
    } else if !records_fit(schema.fields, embeddings, text, ids) {
        &&& step matches StepView::Broken(FaultView::RejectedBatch(e))
        &&& may_reject_records(schema.fields, embeddings, text, ids, e)
    } else {
        step == (StepView::Ask {
            request: RequestView::Append {
                batches: seq![record_batch(schema, embeddings, text, ids)],
                schema,
            },
            operation: OperationView::Appending,
        })
    }
}

/// How looking up a document ends with the result of the query.
pub open spec fn after_fetching(batches: Seq<BatchView>) -> StepView {
    match read_documents(batches) {
        Err(message) => failed(ErrorView::Runtime(message)),
        Ok(documents) => if documents.len() > 1 {
            StepView::Broken(FaultView::AmbiguousId)
        } else if documents.len() == 1 {
            finished(OutcomeView::Found(Some(documents[0])))
        } else {
            finished(OutcomeView::Found(None))
        },
    }
}

/// How listing documents ends with the result of the query.
pub open spec fn after_listing(batches: Seq<BatchView>, total: nat) -> StepView {
    match read_documents(batches) {
        Err(message) => failed(ErrorView::Runtime(message)),
        Ok(documents) => finished(OutcomeView::Listed(documents, total)),
    }
}

/// How searching ends with the result of the query.
pub open spec fn after_searching(batches: Seq<BatchView>) -> StepView {
    match read_distances(batches) {
        Err(message) => failed(ErrorView::Runtime(message)),
        Ok(documents) => finished(OutcomeView::Ranked(documents)),
    }
}

/// An operation may take this step when the work it asked for has been done. There is
/// one such step, but where Arrow has a choice of errors.
pub open spec fn next(operation: OperationView, reply: ReplyView, step: StepView) -> bool {
    match reply {
        ReplyView::Failed(e) => step == failed(ErrorView::VectorDb(e)),
        ReplyView::Interrupted { message } => step == failed(
            ErrorView::VectorDb(DatabaseErrorView::Runtime { message }),
        ),
        ReplyView::NotEmbedded(e) => step == failed(ErrorView::Embedding(e)),
        _ => match operation {
            OperationView::Connecting => step == (StepView::Ask {
                request: RequestView::ListTables,
                operation: OperationView::ListingTables,
            }),
            OperationView::ListingTables => step == (StepView::Ask {
                request: table_request(reply->Tables_0, TABLE_NAME@),
                operation: OperationView::OpeningTable,
            }),
            OperationView::OpeningTable => step == finished(OutcomeView::Opened),
            OperationView::EmbeddingDocuments { ids, text } => step == after_embedding(
                ids,
                text,
                reply->Embedded_0,
            ),
            OperationView::ReadingSchema { embeddings, ids, text } => after_schema(
                embeddings,
                ids,
                text,
                reply->Schema_0,
                step,
            ),
            OperationView::Appending => step == finished(OutcomeView::Done),
            OperationView::Deleting => step == finished(OutcomeView::Done),
            OperationView::Replacing { id, new_text } => step == start_add(
                seq![id],
                seq![new_text],
            ),
            OperationView::Counting => step == finished(OutcomeView::Count(reply->Count_0)),
            OperationView::CountingAll => step == (StepView::Ask {
                request: RequestView::RunQuery {
                    query: QueryView { vector: None, filter: None, limit: LISTING_LIMIT as nat },
                },
                operation: OperationView::ListingAll { total: reply->Count_0 },
            }),
            OperationView::ListingAll { total } => step == after_listing(reply->Batches_0, total),
            OperationView::Fetching => step == after_fetching(reply->Batches_0),
            OperationView::EmbeddingQuery { filter, limit } => step == (StepView::Ask {
                request: RequestView::RunQuery {
                    query: QueryView {
                        vector: Some(reply->Embedded_0.flatten()),
                        filter,
                        limit,
                    },
                },
                operation: OperationView::Searching,
            }),
            OperationView::Searching => step == after_searching(reply->Batches_0),
            OperationView::Indexing => step == finished(OutcomeView::Done),
        },
    }
}

impl EmbedStore {
    /// Where the database is.
    pub fn db_path() -> (uri: String)
        ensures
            uri@ == db_uri(),
            uri@ == "../data"@ + "/"@ + "sample-lancedb"@,
    {
        let mut uri = DB_DIR.to_string();
        uri.append("/");
        uri.append(DB_NAME);
        uri
    }

    /// Opens the table if it is among the existing ones, and creates it if not.
    pub fn get_or_create_table(table_names: &Vec<String>, table_name: &str) -> (request: Request)
        ensures
            request@ == table_request(string_views(table_names@), table_name@),
    {
        let ghost names = string_views(table_names@);
        let wanted = table_name.to_string();
        let mut next: usize = 0;
        while next < table_names.len()
            invariant
                next <= table_names@.len(),
                names == string_views(table_names@),
                wanted@ == table_name@,
                forall|i: int| 0 <= i < next ==> #[trigger] names[i] != table_name@,
            decreases table_names@.len() - next,
        {
            assert(names[next as int] == table_names@[next as int]@);
            if table_names[next] == wanted {
                return Request::OpenTable { name: wanted };
            }
            next = next + 1;
        }
        assert(!names.contains(table_name@));
        Self::create_empty_table(table_name, EMBEDDING_DIMENSIONS)
    }

    /// Creates an empty table with the schema for embeddings of
    /// `dimensions_count` dimensions.
    pub fn create_empty_table(table_name: &str, dimensions_count: usize) -> (request: Request)
        ensures
            request@ == (RequestView::CreateTable {
                name: table_name@,
                schema: table_schema((dimensions_count as i32) as int),
            }),
    {
        Request::CreateTable {
            name: table_name.to_string(),
            schema: Self::generate_schema(dimensions_count),
        }
    }
}

/// The vectors, one after the other.
fn flatten(vectors: Vec<Vec<u32>>) -> (flat: Vec<u32>)
    ensures
        flat@ == embedding_views(vectors@).flatten(),
{
    let ghost views = embedding_views(vectors@);
    let mut flat: Vec<u32> = Vec::new();
    let mut next: usize = 0;
    assert(views.take(0) =~= Seq::empty());
    while next < vectors.len()
        invariant
            next <= vectors@.len(),
            views == embedding_views(vectors@),
            flat@ == views.take(next as int).flatten(),
        decreases vectors@.len() - next,
    {
        let vector = &vectors[next];
        let ghost before = flat@;
        let mut index: usize = 0;
        assert(before + vector@.take(0) =~= before);
        while index < vector.len()
            invariant
                index <= vector@.len(),
                flat@ == before + vector@.take(index as int),
            decreases vector@.len() - index,
        {
            flat.push(vector[index]);
            assert(before + vector@.take(index + 1) =~= (before + vector@.take(index as int)).push(
                vector@[index as int],
            ));
            index = index + 1;
        }
        proof {
            assert(vector@.take(index as int) =~= vector@);
            assert(views.take(next + 1) =~= views.take(next as int).push(vector@));
            views.take(next as int).lemma_flatten_push(vector@);
        }
        next = next + 1;
    }
    assert(views.take(next as int) =~= views);
    flat
}

impl Operation {
    /// Opens the store.
    pub fn open() -> (step: Step)
        ensures
            step@ == start_open(),
    {
        Step::Ask {
            request: Request::Connect { uri: EmbedStore::db_path() },
            operation: Operation::Connecting,
        }
    }

    /// Adds documents.
    pub fn add(alt_ids: Vec<String>, text: Vec<String>) -> (step: Step)
        ensures
            step@ == start_add(string_views(alt_ids@), string_views(text@)),
    {
        let documents = text.clone();
        assert(string_views(documents@) =~= string_views(text@));
        Step::Ask {
            request: Request::Embed { documents },
            operation: Operation::EmbeddingDocuments { ids: alt_ids, text },
        }
    }

    /// Counts the documents.
    pub fn record_count() -> (step: Step)
        ensures
            step@ == start_record_count(),
    {
        Step::Ask { request: Request::CountRows, operation: Operation::Counting }
    }

    /// Searches for the documents nearest to a text.
    pub fn search(search_text: &str, filter: Option<&str>, limit: Option<usize>) -> (step: Step)
        ensures
            step@ == start_search(search_text@, filter_view(filter), limit_or(limit, SEARCH_LIMIT)),
            step@ matches StepView::Ask { request, operation } && {
                &&& request == (RequestView::Embed { documents: seq![search_text@] })
                &&& operation matches OperationView::EmbeddingQuery { filter: kept, limit: most }
                &&& match filter {
                    Some(clause) => kept == Some(clause@),
                    None => kept is None,
                }
                &&& match limit {
                    Some(n) => most == n,
                    None => most == 25,
                }
            },
    {
        let filter = match filter {
            Some(clause) => Some(clause.to_string()),
            None => None,
        };
        let documents = vec![search_text.to_string()];
        assert(string_views(documents@) =~= seq![search_text@]);
        Step::Ask {
            request: Request::Embed { documents },
            operation: Operation::EmbeddingQuery { filter, limit: limit.unwrap_or(SEARCH_LIMIT) },
        }
    }

    /// Looks up a document.
    pub fn get(id: &str) -> (step: Step)
        ensures
            step@ == start_get(id@),
    {
        let filter = EmbedStore::id_filter(id);
        let query = EmbedStore::execute_query(None, Some(filter.as_str()), None);
        Step::Ask { request: Request::RunQuery { query }, operation: Operation::Fetching }
    }

    /// Lists the documents.
    pub fn get_all() -> (step: Step)
        ensures
            step@ == start_get_all(),
    {
        Step::Ask { request: Request::CountRows, operation: Operation::CountingAll }
    }

    /// Deletes documents.
    pub fn delete(ids: &Vec<String>) -> (step: Step)
        ensures
            step@ == start_delete(string_views(ids@)),
    {
        Step::Ask {
            request: Request::DeleteRows { predicate: EmbedStore::delete_predicate(ids) },
            operation: Operation::Deleting,
        }
    }

    /// Replaces the text of a document.
    pub fn update(id: &str, text: &str) -> (step: Step)
        ensures
            step@ == start_update(id@, text@),
    {
        let ids = vec![id.to_string()];
        assert(string_views(ids@) =~= seq![id@]);
        Step::Ask {
            request: Request::DeleteRows { predicate: EmbedStore::delete_predicate(&ids) },
            operation: Operation::Replacing { id: id.to_string(), new_text: text.to_string() },
        }
    }

    /// Creates an index on the embeddings.
    pub fn create_index() -> (step: Step)
        ensures
            step@ == start_create_index(),
    {
        let columns = vec![COLUMN_EMBEDDINGS.to_string()];
        assert(string_views(columns@) =~= seq![COLUMN_EMBEDDINGS@]);
        Step::Ask { request: Request::CreateIndex { columns }, operation: Operation::Indexing }
    }

    /// Whether the reply is of a sort that the operation waits for.
    pub fn awaits(&self, reply: &Reply) -> (fits: bool)
        ensures
            fits == awaits(self@, reply@),
    {
        match self {
            Operation::Connecting
            | Operation::OpeningTable
            | Operation::Appending
            | Operation::Deleting
            | Operation::Replacing { .. }
            | Operation::Indexing => matches!(reply, Reply::Done | Reply::Failed(_)),
            Operation::ListingTables => matches!(reply, Reply::Tables(_) | Reply::Failed(_)),
            Operation::EmbeddingDocuments { .. } | Operation::EmbeddingQuery { .. } => matches!(
                reply,
                Reply::Embedded(_) | Reply::NotEmbedded(_)
            ),
            Operation::ReadingSchema { .. } => matches!(reply, Reply::Schema(_) | Reply::Failed(_)),
            Operation::Counting | Operation::CountingAll => matches!(
                reply,
                Reply::Count(_) | Reply::Failed(_)
            ),
            Operation::ListingAll { .. } | Operation::Fetching | Operation::Searching => matches!(
                reply,
                Reply::Batches(_) | Reply::Failed(_) | Reply::Interrupted { .. }
            ),
        }
    }

    /// Goes on with the reply to the last request.
    pub fn advance(self, reply: Reply) -> (step: Step)
        requires
            awaits(self@, reply@),
        ensures
            next(self@, reply@, step@),
    {
        match reply {
            Reply::Failed(e) => Step::Finish(Err(EmbedStoreError::from(e))),
            Reply::Interrupted { message } => Step::Finish(
                Err(EmbedStoreError::VectorDb(DatabaseError::Runtime { message })),
            ),
            Reply::NotEmbedded(e) => Step::Finish(Err(EmbedStoreError::from(e))),
            Reply::Done => self.after_done(),
            Reply::Tables(table_names) => Step::Ask {
                request: EmbedStore::get_or_create_table(&table_names, TABLE_NAME),
                operation: Operation::OpeningTable,
            },
            Reply::Embedded(embeddings) => self.after_embedding(embeddings),
            Reply::Schema(schema) => self.after_schema(schema),
            Reply::Count(count) => self.after_count(count),
            Reply::Batches(batches) => self.after_batches(batches),
        }
    }

    /// Goes on when work without a result is done.
    fn after_done(self) -> (step: Step)
        requires
            awaits(self@, ReplyView::Done),
        ensures
            next(self@, ReplyView::Done, step@),
    {
        match self {
            Operation::Connecting => Step::Ask {
                request: Request::ListTables,
                operation: Operation::ListingTables,
            },
            Operation::OpeningTable => Step::Finish(Ok(Outcome::Opened)),
            Operation::Replacing { id, new_text } => {
                let ids = vec![id];
                let texts = vec![new_text];
                assert(string_views(ids@) =~= seq![id@]);
                assert(string_views(texts@) =~= seq![new_text@]);
                Operation::add(ids, texts)
            },
            _ => Step::Finish(Ok(Outcome::Done)),
        }
    }

    /// Goes on with embeddings.
    fn after_embedding(self, embeddings: Vec<Vec<u32>>) -> (step: Step)
        requires
            awaits(self@, ReplyView::Embedded(embedding_views(embeddings@))),
        ensures
            next(self@, ReplyView::Embedded(embedding_views(embeddings@)), step@),
    {
        match self {
            Operation::EmbeddingQuery { filter, limit } => {
                let query = flatten(embeddings);
                let filter = match &filter {
                    Some(clause) => Some(clause.as_str()),
                    None => None,
                };
                Step::Ask {
                    request: Request::RunQuery {
                        query: EmbedStore::execute_search(query, filter, Some(limit)),
                    },
                    operation: Operation::Searching,
                }
            },
            Operation::EmbeddingDocuments { ids, text } => {
                if embeddings.len() == 0 {
                    Step::Broken(Fault::NoEmbedding)
                } else if embeddings[0].len() != EMBEDDING_DIMENSIONS {
                    Step::Broken(Fault::DimensionMismatch)
                } else {
                    Step::Ask {
                        request: Request::ReadSchema,
                        operation: Operation::ReadingSchema { embeddings, ids, text },
                    }
                }
            },
            _ => vstd::pervasive::unreached(),
        }
    }

    /// Goes on with the schema of the table.
    fn after_schema(self, schema: Arc<Schema>) -> (step: Step)
        requires
            awaits(self@, ReplyView::Schema(schema_view(*schema))),
        ensures
            next(self@, ReplyView::Schema(schema_view(*schema)), step@),
    {
        match self {
            Operation::ReadingSchema { embeddings, ids, text } => {
                if !is_storable(&embeddings, &text, &ids) {
                    return Step::Broken(Fault::Unstorable);
                }
                match EmbedStore::create_record_batch(embeddings, text, ids, schema.clone()) {
                    Err(e) => Step::Broken(Fault::RejectedBatch(e)),
                    Ok(batches) => {
                        assert(batch_views(batches@) =~= seq![batches@[0]@]);
                        Step::Ask {
                            request: Request::Append { batches, schema },
                            operation: Operation::Appending,
                        }
                    },
                }
            },
            _ => vstd::pervasive::unreached(),
        }
    }

    /// Goes on with the number of rows.
    fn after_count(self, count: usize) -> (step: Step)
        requires
            awaits(self@, ReplyView::Count(count as nat)),
        ensures
            next(self@, ReplyView::Count(count as nat), step@),
    {
        match self {
            Operation::CountingAll => Step::Ask {
                request: Request::RunQuery {
                    query: EmbedStore::execute_query(None, None, Some(LISTING_LIMIT)),
                },
                operation: Operation::ListingAll { total: count },
            },
            _ => Step::Finish(Ok(Outcome::Count(count))),
        }
    }

    /// Ends with the result of a query.
    fn after_batches(self, batches: Vec<TableBatch>) -> (step: Step)
        requires
            awaits(self@, ReplyView::Batches(batch_views(batches@))),
        ensures
            next(self@, ReplyView::Batches(batch_views(batches@)), step@),
    {
        match self {
            Operation::Searching => match EmbedStore::record_to_document_with_distances(batches) {
                Err(e) => Step::Finish(Err(e)),
                Ok(documents) => Step::Finish(Ok(Outcome::Ranked(documents))),
            },
            Operation::ListingAll { total } => match EmbedStore::record_to_document(batches) {
                Err(e) => Step::Finish(Err(e)),
                Ok(documents) => Step::Finish(Ok(Outcome::Listed(documents, total))),
            },
            _ => match EmbedStore::record_to_document(batches) {
                Err(e) => Step::Finish(Err(e)),
                Ok(documents) => {
                    let mut documents = documents;
                    let ghost found = documents@;
                    if documents.len() > 1 {
                        Step::Broken(Fault::AmbiguousId)
                    } else {
                        let document = documents.pop();
                        proof {
                            if found.len() == 1 {
                                assert(document_views(found)[0] == found[0]@);
                            }
                        }
                        Step::Finish(Ok(Outcome::Found(document)))
                    }
                },
            },
        }
    }
}

} // verus!
