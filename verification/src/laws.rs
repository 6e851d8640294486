//! What holds across the functions of the store.
pub mod meaning;
pub mod running;

#[allow(unused_imports)]
use vstd::multiset::Multiset;
use vstd::prelude::*;
#[allow(unused_imports)]
use vstd::std_specs::cmp::PartialEqSpec;
#[allow(unused_imports)]
use vstd::utf8::encode_utf8;

use crate::document::Document;
#[allow(unused_imports)]
use crate::batches::{
    batch_distances, batch_documents, documents_fault, present, read_distances, read_documents,
    record_batch, record_cells, record_kinds, records_fit, storable, table_fields, table_schema,
    COLUMN_EMBEDDINGS, COLUMN_ID, COLUMN_TEXT,
};
#[allow(unused_imports)]
use crate::columns::{
    first_named, floats_cell, total_bytes, BatchView, ColumnView, FieldView, SchemaView,
};
#[allow(unused_imports)]
use crate::database::{
    is_failure, is_unquoted, lists, other_rows, provides, rows_named, selects, Run, TableView,
};
#[allow(unused_imports)]
use crate::document::DocumentView;
#[allow(unused_imports)]
use crate::error::{DatabaseErrorView, ErrorView};
#[allow(unused_imports)]
use crate::note::{is_alphanumeric, is_note_id, NOTE_ID_LENGTH};
#[allow(unused_imports)]
use crate::operation::{
    after_fetching, awaits, next, start_add, start_create_index, start_delete, start_get,
    start_get_all, start_open, start_record_count, start_search, start_update, table_request,
    FaultView, OperationView, OutcomeView, ReplyView, RequestView, StepView, EMBEDDING_DIMENSIONS,
    TABLE_NAME,
};
#[allow(unused_imports)]
use crate::query::{
    comma_separated, delete_predicate, id_filter, QueryView, LISTING_LIMIT, QUERY_LIMIT,
};
#[allow(unused_imports)]
use crate::store::{embedded_step, embedding_reply, embeds_to};

verus! {

// ---------------------------------------------------------------------------
// Documents
// ---------------------------------------------------------------------------

/// Being the same document is an equivalence, and the texts have no say in it.
pub proof fn law_same_document_is_an_equivalence(a: Document, b: Document, c: Document)
    ensures
        a.eq_spec(&a),
        a.eq_spec(&b) ==> b.eq_spec(&a),
        a.eq_spec(&b) && b.eq_spec(&c) ==> a.eq_spec(&c),
        a.eq_spec(&b) <==> a.id@ == b.id@,
{
}

// ---------------------------------------------------------------------------
// Batches
// ---------------------------------------------------------------------------

/// The documents with these identifiers and texts.
pub open spec fn documents_of(ids: Seq<Seq<char>>, text: Seq<Seq<char>>) -> Seq<DocumentView> {
    Seq::new(ids.len(), |i: int| DocumentView { id: ids[i], text: text[i] })
}

/// The table has the columns that documents are read from under their names, and
/// no other column of documents goes by these names.
pub open spec fn names_document_columns(fields: Seq<FieldView>) -> bool {
    &&& fields.len() == 3
    &&& fields[0].name != COLUMN_ID@
    &&& fields[0].name != COLUMN_TEXT@
    &&& fields[1].name == COLUMN_TEXT@
    &&& fields[2].name == COLUMN_ID@
}

/// What is written in a batch is read back from it: the same documents, with the
/// same identifiers and texts, in the same order.
pub proof fn law_written_documents_are_read_back(
    schema: SchemaView,
    embeddings: Seq<Seq<u32>>,
    text: Seq<Seq<char>>,
    ids: Seq<Seq<char>>,
)
    requires
        names_document_columns(schema.fields),
        records_fit(schema.fields, embeddings, text, ids),
    ensures
        read_documents(seq![record_batch(schema, embeddings, text, ids)]) == Ok::<
            Seq<DocumentView>,
            Seq<char>,
        >(documents_of(ids, text)),
{
    let batch = record_batch(schema, embeddings, text, ids);
    let cells = record_cells(embeddings, text, ids);
    lemma_column_names_differ();
    assert(cells[0].len() == embeddings.len());
    assert(cells[1].len() == text.len());
    assert(cells[2].len() == ids.len());
    lemma_first_named_of_three(batch.columns);
    assert(documents_fault(batch) is None);
    assert(batch_documents(batch) =~= documents_of(ids, text));
    let batches = seq![batch];
    assert(batches.drop_last() =~= Seq::empty());
    assert(Seq::<DocumentView>::empty() + batch_documents(batch) =~= batch_documents(batch));
    reveal_with_fuel(read_documents, 2);
}

/// A table that the store creates takes the documents that the store adds to it
/// exactly when their embeddings have the size that the table was created for, and
/// there are as many embeddings, texts and identifiers.
pub proof fn law_created_table_takes_documents(
    size: int,
    embeddings: Seq<Seq<u32>>,
    text: Seq<Seq<char>>,
    ids: Seq<Seq<char>>,
)
    ensures
        names_document_columns(table_fields(size)),
        records_fit(table_fields(size), embeddings, text, ids) <==> {
            &&& embeddings[0].len() == size
            &&& text.len() == embeddings.len()
            &&& ids.len() == embeddings.len()
        },
{
    lemma_column_names_differ();
    let fields = table_fields(size);
    let kinds = record_kinds(embeddings);
    let cells = record_cells(embeddings, text, ids);
    assert(cells[0].len() == embeddings.len());
    assert(cells[1].len() == text.len());
    assert(cells[2].len() == ids.len());
    if records_fit(fields, embeddings, text, ids) {
        assert(fields[0].kind == kinds[0]);
    } else {
        assert(fields[1].kind == kinds[1]);
        assert(fields[2].kind == kinds[2]);
        assert(forall|j: int| 0 <= j < text.len() ==> !(#[trigger] cells[1][j]).null);
        assert(forall|j: int| 0 <= j < ids.len() ==> !(#[trigger] cells[2][j]).null);
    }
}

/// Embeddings of one size can be laid out side by side, and are kept as they are,
/// each in the row of its document.
pub proof fn law_embeddings_of_one_size_are_kept(
    schema: SchemaView,
    embeddings: Seq<Seq<u32>>,
    text: Seq<Seq<char>>,
    ids: Seq<Seq<char>>,
    row: int,
)
    requires
        forall|i: int| 0 <= i < embeddings.len() ==> #[trigger] embeddings[i].len()
            == embeddings[0].len(),
        0 <= row < embeddings.len(),
    ensures
        embeddings.flatten().len() == embeddings.len() * embeddings[0].len(),
        record_batch(schema, embeddings, text, ids).columns[0].cells[row] == floats_cell(
            present(embeddings[row]),
        ),
{
    let size = embeddings[0].len();
    lemma_flatten_of_one_size(embeddings, size, row);
    let flat = embeddings.flatten();
    let from = row * size;
    let to = (row + 1) * size;
    assert(present(flat).subrange(from, to) =~= present(flat.subrange(from, to)));
}

/// Batches are read one after the other: what two runs of batches hold together is
/// what the first holds followed by what the second holds, and the first run that
/// cannot be read decides the error.
pub proof fn law_batches_are_read_in_turn(first: Seq<BatchView>, second: Seq<BatchView>)
    ensures
        read_documents(first + second) == match (read_documents(first), read_documents(second)) {
            (Err(message), _) => Err(message),
            (Ok(_), Err(message)) => Err(message),
            (Ok(a), Ok(b)) => Ok(a + b),
        },
        read_distances(first + second) == match (read_distances(first), read_distances(second)) {
            (Err(message), _) => Err(message),
            (Ok(_), Err(message)) => Err(message),
            (Ok(a), Ok(b)) => Ok(a + b),
        },
    decreases second.len(),
{
    if second.len() == 0 {
        assert(first + second =~= first);
        match read_documents(first) {
            Ok(a) => assert(a + Seq::<DocumentView>::empty() =~= a),
            Err(_) => {},
        }
        match read_distances(first) {
            Ok(a) => assert(a + Seq::<(DocumentView, u32)>::empty() =~= a),
            Err(_) => {},
        }
    } else {
        law_batches_are_read_in_turn(first, second.drop_last());
        assert((first + second).drop_last() =~= first + second.drop_last());
        let last = second.last();
        match (read_documents(first), read_documents(second.drop_last())) {
            (Ok(a), Ok(b)) => assert(a + b + batch_documents(last) =~= a + (b + batch_documents(
                last,
            ))),
            _ => {},
        }
        match (read_distances(first), read_distances(second.drop_last())) {
            (Ok(a), Ok(b)) => assert(a + b + batch_distances(last) =~= a + (b + batch_distances(
                last,
            ))),
            _ => {},
        }
    }
}

/// The number of rows in all batches.
pub open spec fn total_rows(batches: Seq<BatchView>) -> nat
    decreases batches.len(),
{
    if batches.len() == 0 {
        0
    } else {
        total_rows(batches.drop_last()) + batches.last().rows
    }
}

/// Every row becomes one document, whether it is read with its distance or without.
pub proof fn law_every_row_is_one_document(batches: Seq<BatchView>)
    ensures
        read_documents(batches) matches Ok(documents) ==> documents.len() == total_rows(batches),
        read_distances(batches) matches Ok(documents) ==> documents.len() == total_rows(batches),
    decreases batches.len(),
{
    if batches.len() > 0 {
        law_every_row_is_one_document(batches.drop_last());
    }
}

/// Reading documents with their distances gives the documents that reading them
/// without gives, in the same order.
pub proof fn law_distances_leave_documents_alone(batches: Seq<BatchView>)
    ensures
        read_distances(batches) matches Ok(pairs) ==> read_documents(batches) == Ok::<
            Seq<DocumentView>,
            Seq<char>,
        >(pairs.map_values(|pair: (DocumentView, u32)| pair.0)),
        read_documents(batches) is Err ==> read_distances(batches) is Err,
    decreases batches.len(),
{
    if batches.len() > 0 {
        law_distances_leave_documents_alone(batches.drop_last());
        let last = batches.last();
        let first = |pair: (DocumentView, u32)| pair.0;
        assert(batch_distances(last).map_values(first) =~= batch_documents(last));
        match read_distances(batches.drop_last()) {
            Ok(pairs) => assert((pairs + batch_distances(last)).map_values(first)
                =~= pairs.map_values(first) + batch_documents(last)),
            Err(_) => {},
        }
    } else {
        assert(Seq::<(DocumentView, u32)>::empty().map_values(
            |pair: (DocumentView, u32)| pair.0,
        ) =~= Seq::<DocumentView>::empty());
    }
}

// ---------------------------------------------------------------------------
// Operations
// ---------------------------------------------------------------------------

/// Looking up a document, when the database returns the one row that was written
/// under the identifier, gives that document.
pub proof fn law_get_finds_what_add_wrote(
    schema: SchemaView,
    embedding: Seq<u32>,
    text: Seq<char>,
    id: Seq<char>,
)
    requires
        names_document_columns(schema.fields),
        records_fit(schema.fields, seq![embedding], seq![text], seq![id]),
    ensures
        after_fetching(seq![record_batch(schema, seq![embedding], seq![text], seq![id])])
            == StepView::Finish(Ok(OutcomeView::Found(Some(DocumentView { id, text })))),
{
    law_written_documents_are_read_back(schema, seq![embedding], seq![text], seq![id]);
    let documents = documents_of(seq![id], seq![text]);
    assert(documents.len() == 1);
    assert(documents[0] == DocumentView { id, text });
}

/// Adding documents to a table that the store created gets them there, if the model
/// returns one embedding of the right size for each of them: what is appended in the
/// end reads back as these documents.
pub proof fn law_added_documents_reach_the_table(
    embeddings: Seq<Seq<u32>>,
    text: Seq<Seq<char>>,
    ids: Seq<Seq<char>>,
    embedded: StepView,
    appending: StepView,
    end: StepView,
)
    requires
        embeddings.len() > 0,
        text.len() == embeddings.len(),
        ids.len() == embeddings.len(),
        forall|i: int| 0 <= i < embeddings.len() ==> #[trigger] embeddings[i].len()
            == EMBEDDING_DIMENSIONS,
        total_bytes(text) <= i32::MAX,
        total_bytes(ids) <= i32::MAX,
        next(start_add(ids, text)->operation, ReplyView::Embedded(embeddings), embedded),
        next(
            embedded->operation,
            ReplyView::Schema(table_schema(EMBEDDING_DIMENSIONS as int)),
            appending,
        ),
        next(appending->operation, ReplyView::Done, end),
    ensures
        embedded is Ask && embedded->request is ReadSchema,
        appending is Ask && appending->request is Append,
        read_documents(appending->request->batches) == Ok::<Seq<DocumentView>, Seq<char>>(
            documents_of(ids, text),
        ),
        end == StepView::Finish(Ok(OutcomeView::Done)),
{
    let schema = table_schema(EMBEDDING_DIMENSIONS as int);
    assert(embeddings[0].len() == EMBEDDING_DIMENSIONS);
    law_embeddings_of_one_size_are_kept(schema, embeddings, text, ids, 0);
    law_created_table_takes_documents(EMBEDDING_DIMENSIONS as int, embeddings, text, ids);
    law_written_documents_are_read_back(schema, embeddings, text, ids);
}

/// Replacing the text of a document in a table that the store created gets the new
/// text there under the old identifier, once the old document is deleted and if the
/// model returns one embedding of the right size: what is appended in the end reads
/// back as this one document.
pub proof fn law_updated_document_reaches_the_table(
    embedding: Seq<u32>,
    text: Seq<char>,
    id: Seq<char>,
    deleted: StepView,
    embedded: StepView,
    appending: StepView,
    end: StepView,
)
    requires
        embedding.len() == EMBEDDING_DIMENSIONS,
        encode_utf8(text).len() <= i32::MAX,
        encode_utf8(id).len() <= i32::MAX,
        next(start_update(id, text)->operation, ReplyView::Done, deleted),
        next(deleted->operation, ReplyView::Embedded(seq![embedding]), embedded),
        next(
            embedded->operation,
            ReplyView::Schema(table_schema(EMBEDDING_DIMENSIONS as int)),
            appending,
        ),
        next(appending->operation, ReplyView::Done, end),
    ensures
        deleted is Ask && deleted->request is Embed,
        embedded is Ask && embedded->request is ReadSchema,
        appending is Ask && appending->request is Append,
        read_documents(appending->request->batches) == Ok::<Seq<DocumentView>, Seq<char>>(
            seq![DocumentView { id, text }],
        ),
        end == StepView::Finish(Ok(OutcomeView::Done)),
{
    reveal_with_fuel(total_bytes, 2);
    law_added_documents_reach_the_table(
        seq![embedding],
        seq![text],
        seq![id],
        embedded,
        appending,
        end,
    );
    assert(documents_of(seq![id], seq![text]) =~= seq![DocumentView { id, text }]);
}

/// What is appended is whole: one batch under the schema of the table, with one row
/// for every identifier, and as many texts and embeddings as there are rows.
pub proof fn law_appended_rows_are_whole(
    embeddings: Seq<Seq<u32>>,
    text: Seq<Seq<char>>,
    ids: Seq<Seq<char>>,
    schema: SchemaView,
    step: StepView,
)
    requires
        next(
            OperationView::ReadingSchema { embeddings, ids, text },
            ReplyView::Schema(schema),
            step,
        ),
    ensures
        step is Ask ==> {
            &&& step->request is Append
            &&& step->request->batches.len() == 1
            &&& step->request->batches[0].schema == schema
            &&& step->request->batches[0].rows == ids.len()
            &&& text.len() == ids.len()
            &&& embeddings.len() == ids.len()
        },
{
    let cells = record_cells(embeddings, text, ids);
    assert(cells[0].len() == embeddings.len());
    assert(cells[1].len() == text.len());
    assert(cells[2].len() == ids.len());
}

/// Documents that do not fit the table never reach it: where their numbers differ, or
/// where the size of their embeddings is not that of the table, adding them breaks
/// off, and nothing is asked of the database.
pub proof fn law_misfits_never_reach_the_table(
    size: int,
    embeddings: Seq<Seq<u32>>,
    text: Seq<Seq<char>>,
    ids: Seq<Seq<char>>,
    step: StepView,
)
    requires
        ({
            ||| text.len() != embeddings.len()
            ||| ids.len() != embeddings.len()
            ||| embeddings[0].len() != size
        }),
        next(
            OperationView::ReadingSchema { embeddings, ids, text },
            ReplyView::Schema(table_schema(size)),
            step,
        ),
    ensures
        step is Broken,
        storable(embeddings, text, ids) ==> step->Broken_0 is RejectedBatch,
{
    law_created_table_takes_documents(size, embeddings, text, ids);
}

/// Looking up a document goes by the number of rows in the result: none is no
/// document, one is the document, and more must not be.
pub proof fn law_get_goes_by_the_number_of_rows(batches: Seq<BatchView>, step: StepView)
    requires
        read_documents(batches) is Ok,
        next(OperationView::Fetching, ReplyView::Batches(batches), step),
    ensures
        total_rows(batches) == 0 ==> step == StepView::Finish(Ok(OutcomeView::Found(None))),
        total_rows(batches) == 1 ==> step == StepView::Finish(
            Ok(OutcomeView::Found(Some(read_documents(batches)->Ok_0[0]))),
        ),
        total_rows(batches) > 1 ==> step == StepView::Broken(FaultView::AmbiguousId),
{
    law_every_row_is_one_document(batches);
}

/// A search queries for the embedding of its text, with its filter and its limit, if
/// the model returns one embedding.
pub proof fn law_search_queries_for_its_embedding(
    search_text: Seq<char>,
    filter: Option<Seq<char>>,
    limit: nat,
    embedding: Seq<u32>,
    step: StepView,
)
    requires
        next(
            start_search(search_text, filter, limit)->operation,
            ReplyView::Embedded(seq![embedding]),
            step,
        ),
    ensures
        step == (StepView::Ask {
            request: RequestView::RunQuery {
                query: QueryView { vector: Some(embedding), filter, limit },
            },
            operation: OperationView::Searching,
        }),
{
    seq![embedding].lemma_flatten_one_element();
}

/// There is one way to go on from a reply, but for the error with which Arrow rejects
/// documents.
pub proof fn law_steps_are_determined(
    operation: OperationView,
    reply: ReplyView,
    a: StepView,
    b: StepView,
)
    requires
        awaits(operation, reply),
        next(operation, reply, a),
        next(operation, reply, b),
    ensures
        a == b || {
            &&& a matches StepView::Broken(FaultView::RejectedBatch(_))
            &&& b matches StepView::Broken(FaultView::RejectedBatch(_))
        },
{
}

/// Whatever an operation is at, a failure ends it: nothing more is asked for, and
/// the failure is what the operation comes to.
pub proof fn law_failures_end_operations(
    operation: OperationView,
    reply: ReplyView,
    step: StepView,
)
    requires
        awaits(operation, reply),
        next(operation, reply, step),
    ensures
        reply matches ReplyView::Failed(e) ==> step == StepView::Finish(
            Err(ErrorView::VectorDb(e)),
        ),
        reply matches ReplyView::Interrupted { message } ==> step == StepView::Finish(
            Err(ErrorView::VectorDb(DatabaseErrorView::Runtime { message })),
        ),
        reply matches ReplyView::NotEmbedded(e) ==> step == StepView::Finish(
            Err(ErrorView::Embedding(e)),
        ),
{
}

/// How many replies an operation can still wait for.
pub open spec fn replies_left(operation: OperationView) -> nat {
    match operation {
        OperationView::Replacing { .. } => 4,
        OperationView::EmbeddingDocuments { .. } | OperationView::Connecting => 3,
        OperationView::ReadingSchema { .. }
        | OperationView::ListingTables
        | OperationView::CountingAll
        | OperationView::EmbeddingQuery { .. } => 2,
        _ => 1,
    }
}

/// Every reply brings an operation nearer to its end, so that none waits for more
/// than four.
pub proof fn law_operations_end(operation: OperationView, reply: ReplyView, step: StepView)
    requires
        awaits(operation, reply),
        next(operation, reply, step),
    ensures
        1 <= replies_left(operation) <= 4,
        step matches StepView::Ask { operation: waiting, .. } ==> replies_left(waiting)
            < replies_left(operation),
{
}

/// The reply is of a sort that the request can have.
pub open spec fn answers(request: RequestView, reply: ReplyView) -> bool {
    match request {
        RequestView::Connect { .. }
        | RequestView::OpenTable { .. }
        | RequestView::CreateTable { .. }
        | RequestView::Append { .. }
        | RequestView::DeleteRows { .. }
        | RequestView::CreateIndex { .. } => reply is Done || reply is Failed,
        RequestView::ListTables => reply is Tables || reply is Failed,
        RequestView::Embed { .. } => reply is Embedded || reply is NotEmbedded,
        RequestView::ReadSchema => reply is Schema || reply is Failed,
        RequestView::CountRows => reply is Count || reply is Failed,
        RequestView::RunQuery { .. } => reply is Batches || reply is Failed || reply is Interrupted,
    }
}

/// Whoever answers the request of this step gives the operation a reply that it
/// waits for.
pub open spec fn is_answerable(step: StepView) -> bool {
    step matches StepView::Ask { request, operation } ==> forall|reply: ReplyView| #[trigger]
        answers(request, reply) ==> awaits(operation, reply)
}

/// Every operation starts with a request whose answer it waits for.
pub proof fn law_first_requests_are_answerable(
    ids: Seq<Seq<char>>,
    texts: Seq<Seq<char>>,
    id: Seq<char>,
    text: Seq<char>,
    filter: Option<Seq<char>>,
    limit: nat,
)
    ensures
        is_answerable(start_open()),
        is_answerable(start_add(ids, texts)),
        is_answerable(start_record_count()),
        is_answerable(start_search(text, filter, limit)),
        is_answerable(start_get(id)),
        is_answerable(start_get_all()),
        is_answerable(start_delete(ids)),
        is_answerable(start_update(id, text)),
        is_answerable(start_create_index()),
{
}

/// Every operation goes on with requests whose answers it waits for.
pub proof fn law_later_requests_are_answerable(
    operation: OperationView,
    reply: ReplyView,
    step: StepView,
)
    requires
        awaits(operation, reply),
        next(operation, reply, step),
    ensures
        is_answerable(step),
{
}

/// The store never asks its caller for embeddings: where an operation asks for them,
/// the store goes on with what its model makes of the documents, to a step that
/// asks for no embeddings.
pub proof fn law_store_embeds_by_itself(
    model: fastembed::TextEmbedding,
    from: StepView,
    to: StepView,
)
    requires
        is_answerable(from),
        embeds_to(model, from, to),
    ensures
        is_answerable(to),
        !(to matches StepView::Ask { request: RequestView::Embed { .. }, .. }),
{
    if let StepView::Ask { request: RequestView::Embed { documents }, operation } = from {
        assert(embedded_step(model, documents, operation, to));
        let reply = choose|reply: ReplyView| #[trigger]
            embedding_reply(model, documents, reply) && next(operation, reply, to);
        assert(answers(RequestView::Embed { documents }, reply));
        assert(answers(RequestView::Embed { documents }, ReplyView::Embedded(Seq::empty())));
        law_later_requests_are_answerable(operation, reply, to);
    }
}

/// Replacing a document is deleting it and then adding it with its new text: the
/// first request is that of deleting, and once it is done the operation goes on as
/// adding does from its start.
pub proof fn law_update_deletes_then_adds(id: Seq<char>, text: Seq<char>, step: StepView)
    requires
        next(start_update(id, text)->operation, ReplyView::Done, step),
    ensures
        start_update(id, text)->request == start_delete(seq![id])->request,
        step == start_add(seq![id], seq![text]),
{
}

/// A table of any name is opened if it is listed and created if it is not, and never
/// the other way round; and so is the table of the store when the store is opened.
pub proof fn law_existing_table_is_kept(names: Seq<Seq<char>>, name: Seq<char>, step: StepView)
    requires
        next(OperationView::ListingTables, ReplyView::Tables(names), step),
    ensures
        names.contains(name) ==> table_request(names, name) == (RequestView::OpenTable { name }),
        !names.contains(name) ==> table_request(names, name) == (RequestView::CreateTable {
            name,
            schema: table_schema(EMBEDDING_DIMENSIONS as int),
        }),
        step is Ask,
        step->request == table_request(names, TABLE_NAME@),
{
}

/// Two identifiers with the same filter are the same identifier.
pub proof fn law_filters_tell_identifiers_apart(a: Seq<char>, b: Seq<char>)
    ensures
        id_filter(a) == id_filter(b) ==> a == b,
{
    if id_filter(a) == id_filter(b) {
        let prefix = "id = '"@;
        let n = prefix.len() as int;
        assert(id_filter(a).len() == n + a.len() + "'"@.len());
        assert(id_filter(b).len() == n + b.len() + "'"@.len());
        assert(id_filter(a).subrange(n, n + a.len()) =~= a);
        assert(id_filter(b).subrange(n, n + b.len()) =~= b);
    }
}

/// Two identifiers that are deleted with the same predicate are the same identifier.
pub proof fn law_predicates_tell_identifiers_apart(a: Seq<char>, b: Seq<char>)
    ensures
        delete_predicate(seq![a]) == delete_predicate(seq![b]) ==> a == b,
{
    if delete_predicate(seq![a]) == delete_predicate(seq![b]) {
        let n = "id in ('"@.len() as int;
        assert(delete_predicate(seq![a]).len() == n + a.len() + "')"@.len());
        assert(delete_predicate(seq![b]).len() == n + b.len() + "')"@.len());
        assert(delete_predicate(seq![a]).subrange(n, n + a.len()) =~= a);
        assert(delete_predicate(seq![b]).subrange(n, n + b.len()) =~= b);
    }
}

/// Deleting several identifiers at once asks for the deletion of a single one: that
/// which is written as all of them, separated by commas.
pub proof fn law_delete_names_one_identifier(ids: Seq<Seq<char>>)
    ensures
        start_delete(ids) == start_delete(seq![comma_separated(ids)]),
{
    reveal_with_fuel(comma_separated, 2);
    assert(comma_separated(seq![comma_separated(ids)]) =~= comma_separated(ids));
}

/// In the filter for a note, the quotes around the identifier are the only ones.
pub proof fn law_note_ids_need_no_quoting(id: Seq<char>, i: int)
    requires
        is_note_id(id),
        0 <= i < id_filter(id).len(),
    ensures
        id_filter(id)[i] == '\'' <==> i == "id = '"@.len() - 1 || i == id_filter(id).len() - 1,
{
    reveal_strlit("id = '");
    reveal_strlit("'");
    if "id = '"@.len() <= i < id_filter(id).len() - 1 {
        assert(is_alphanumeric(id[i - "id = '"@.len()]));
    }
}

/// Every identifier of the form that new notes get can be drawn: there are samples,
/// each an ASCII letter or digit and as many as the identifier is long, that it is
/// made of.
pub proof fn law_every_note_id_can_be_drawn(id: Seq<char>) -> (samples: Seq<u8>)
    requires
        is_note_id(id),
    ensures
        samples.len() == NOTE_ID_LENGTH,
        forall|i: int| 0 <= i < samples.len() ==> is_alphanumeric(#[trigger] samples[i] as char),
        samples.map_values(|byte: u8| byte as char) == id,
{
    let samples = id.map_values(|c: char| c as u8);
    assert forall|i: int| 0 <= i < id.len() implies #[trigger] samples[i] as char == id[i] by {
        assert(is_alphanumeric(id[i]));
    }
    assert(samples.map_values(|byte: u8| byte as char) =~= id);
    samples
}

// ---------------------------------------------------------------------------
// What is stored, in a database that does what it is asked to
// ---------------------------------------------------------------------------

/// Opening a table twice creates it at most once: the second time it is opened as it
/// is then, with its schema and all of its rows, whatever was added to it in between.
pub proof fn law_opening_twice_creates_nothing(
    name: Seq<char>,
    start: Map<Seq<char>, TableView>,
    first_names: Seq<Seq<char>>,
    opened: Map<Seq<char>, TableView>,
    later: Map<Seq<char>, TableView>,
    second_names: Seq<Seq<char>>,
    end: Map<Seq<char>, TableView>,
)
    requires
        lists(start, first_names),
        provides(start, table_request(first_names, name), opened),
        opened.dom().subset_of(later.dom()),
        lists(later, second_names),
        provides(later, table_request(second_names, name), end),
    ensures
        start.contains_key(name) ==> opened == start,
        !start.contains_key(name) ==> opened == start.insert(
            name,
            TableView {
                schema: table_schema(EMBEDDING_DIMENSIONS as int),
                rows: Multiset::empty(),
            },
        ),
        table_request(second_names, name) == (RequestView::OpenTable { name }),
        end == later,
        end.contains_key(name),
{
    assert(first_names.contains(name) <==> start.contains_key(name));
    assert(second_names.contains(name) <==> later.contains_key(name));
    assert(opened.dom().contains(name));
}

/// Adding documents adds a row for each of them and leaves the other rows alone,
/// whether or not their identifiers are taken.
pub proof fn law_adding_adds_rows(run: Run, ids: Seq<Seq<char>>, text: Seq<Seq<char>>)
    requires
        run.runs(start_add(ids, text)),
        names_document_columns(run.before().schema.fields),
        run.succeeds(),
    ensures
        run.end() == StepView::Finish(Ok(OutcomeView::Done)),
        run.after().schema == run.before().schema,
        run.after().rows == run.before().rows.add(documents_of(ids, text).to_multiset()),
        ids.len() == text.len(),
{
    lemma_adding_from(run, 0, ids, text);
}

/// Adding documents that cannot be stored breaks off and leaves the table as it is, not
/// even with those of them that could be. That is so where the model returns no
/// embedding, where it returns one of the wrong size, and, in a table that the store
/// created, where embeddings, texts and identifiers differ in number.
pub proof fn law_breaking_off_writes_nothing(
    run: Run,
    ids: Seq<Seq<char>>,
    text: Seq<Seq<char>>,
    embeddings: Seq<Seq<u32>>,
)
    requires
        run.runs(start_add(ids, text)),
        run.replies[0] == ReplyView::Embedded(embeddings),
    ensures
        run.end() is Broken ==> run.after() == run.before(),
        embeddings.len() == 0 ==> run.end() == StepView::Broken(FaultView::NoEmbedding),
        embeddings.len() > 0 && embeddings[0].len() != EMBEDDING_DIMENSIONS ==> run.end()
            == StepView::Broken(FaultView::DimensionMismatch),
        ({
            &&& embeddings.len() > 0
            &&& embeddings[0].len() == EMBEDDING_DIMENSIONS
            &&& ids.len() != text.len() || embeddings.len() != text.len()
            &&& run.before().schema == table_schema(EMBEDDING_DIMENSIONS as int)
            &&& !is_failure(run.replies[1])
        }) ==> {
            &&& run.end() is Broken
            &&& storable(embeddings, text, ids) ==> run.end()->Broken_0 is RejectedBatch
        },
{
    assert(run.goes_on(0));
    if run.replies.len() > 1 {
        assert(run.goes_on(1));
        if run.replies.len() > 2 {
            assert(run.goes_on(2));
            if run.replies.len() > 3 {
                assert(run.goes_on(3));
            }
        }
        if run.before().schema == table_schema(EMBEDDING_DIMENSIONS as int) && (ids.len()
            != text.len() || embeddings.len() != text.len()) && !is_failure(run.replies[1]) {
            law_misfits_never_reach_the_table(
                EMBEDDING_DIMENSIONS as int,
                embeddings,
                text,
                ids,
                run.steps[2],
            );
        }
    }
}

/// Deleting removes the rows with the identifier, and no others. With several
/// identifiers, that is the one that is written as all of them.
pub proof fn law_deleting_removes_rows(run: Run, ids: Seq<Seq<char>>)
    requires
        run.runs(start_delete(ids)),
        is_unquoted(comma_separated(ids)),
        run.succeeds(),
    ensures
        run.end() == StepView::Finish(Ok(OutcomeView::Done)),
        run.after().schema == run.before().schema,
        run.after().rows == other_rows(run.before().rows, comma_separated(ids)),
        ids.len() == 1 ==> comma_separated(ids) == ids[0],
{
    law_delete_names_one_identifier(ids);
    assert(run.goes_on(0));
    if run.replies.len() > 1 {
        assert(run.goes_on(1));
    }
}

/// Deleting a second time changes nothing, and succeeds like the first.
pub proof fn law_deleting_twice_is_deleting_once(first: Run, second: Run, id: Seq<char>)
    requires
        first.runs(start_delete(seq![id])),
        second.runs(start_delete(seq![id])),
        is_unquoted(id),
        first.succeeds(),
        second.succeeds(),
        second.before() == first.after(),
    ensures
        first.after().rows == other_rows(first.before().rows, id),
        second.after() == first.after(),
        second.end() == first.end(),
{
    law_deleting_removes_rows(first, seq![id]);
    law_deleting_removes_rows(second, seq![id]);
    assert(other_rows(first.after().rows, id) =~= first.after().rows);
}

/// Replacing a document removes the rows with its identifier and adds one with the new
/// text.
pub proof fn law_updating_replaces_rows(run: Run, id: Seq<char>, text: Seq<char>)
    requires
        run.runs(start_update(id, text)),
        is_unquoted(id),
        names_document_columns(run.before().schema.fields),
        run.succeeds(),
    ensures
        run.end() == StepView::Finish(Ok(OutcomeView::Done)),
        run.after().schema == run.before().schema,
        run.after().rows == other_rows(run.before().rows, id).insert(DocumentView { id, text }),
{
    assert(run.goes_on(0));
    if is_failure(run.replies[0]) {
        if run.replies.len() > 1 {
            assert(run.goes_on(1));
        }
    } else {
        lemma_adding_from(run, 1, seq![id], seq![text]);
        lemma_one_document(id, text);
    }
}

/// Looking up an identifier leaves the table as it is and goes by the rows that have
/// it, unless the database fails: no row is no document, one row is its document, and
/// two rows must not be.
pub proof fn law_looking_up_finds_rows(run: Run, id: Seq<char>)
    requires
        run.runs(start_get(id)),
        is_unquoted(id),
        !is_failure(run.replies[0]),
    ensures
        run.after() == run.before(),
        ({
            let found = rows_named(run.before().rows, id);
            &&& found.len() == 0 ==> run.end() == StepView::Finish(Ok(OutcomeView::Found(None)))
            &&& found.len() == 1 ==> {
                &&& run.end() matches StepView::Finish(Ok(OutcomeView::Found(Some(document))))
                &&& document.id == id
                &&& found == Multiset::singleton(document)
            }
            &&& found.len() > 1 ==> run.end() == StepView::Broken(FaultView::AmbiguousId)
        }),
{
    broadcast use vstd::seq_lib::group_to_multiset_ensures;

    assert(run.goes_on(0));
    if run.replies.len() > 1 {
        assert(run.goes_on(1));
    }
    let found = rows_named(run.before().rows, id);
    let documents = read_documents(run.replies[0]->Batches_0)->Ok_0;
    assert(selects(found, QUERY_LIMIT as nat, documents));
    if found.len() == 1 {
        assert(documents.to_multiset().count(documents[0]) > 0) by {
            assert(documents.contains(documents[0]));
        }
        assert(documents =~= Seq::empty().push(documents[0]));
        assert(documents.to_multiset() =~= Multiset::singleton(documents[0]));
    }
}

/// Counting gives the number of rows and leaves the table as it is, unless the database
/// fails; and its failure is then what counting comes to.
pub proof fn law_counting_counts_rows(run: Run)
    requires
        run.runs(start_record_count()),
    ensures
        !is_failure(run.replies[0]) ==> {
            &&& run.end() == StepView::Finish(Ok(OutcomeView::Count(run.before().rows.len())))
            &&& run.after() == run.before()
        },
        run.replies[0] matches ReplyView::Failed(e) ==> run.end() == StepView::Finish(
            Err(ErrorView::VectorDb(e)),
        ),
{
    assert(run.goes_on(0));
    if run.replies.len() > 1 {
        assert(run.goes_on(1));
    }
}

/// The count grows by the number of documents that are added, also where identifiers
/// repeat or are taken.
pub proof fn law_count_grows_by_what_is_added(
    first: Run,
    adding: Run,
    second: Run,
    ids: Seq<Seq<char>>,
    text: Seq<Seq<char>>,
    count: nat,
)
    requires
        first.runs(start_record_count()),
        first.end() == StepView::Finish(Ok(OutcomeView::Count(count))),
        adding.runs(start_add(ids, text)),
        adding.before() == first.after(),
        names_document_columns(adding.before().schema.fields),
        adding.succeeds(),
        second.runs(start_record_count()),
        second.before() == adding.after(),
        second.succeeds(),
    ensures
        second.end() == StepView::Finish(Ok(OutcomeView::Count(count + text.len()))),
{
    broadcast use vstd::seq_lib::group_to_multiset_ensures;

    law_counting_counts_rows(first);
    law_adding_adds_rows(adding, ids, text);
    law_counting_counts_rows(second);
    lemma_failure_is_no_success(first);
    lemma_failure_is_no_success(second);
    assert(documents_of(ids, text).to_multiset().len() == text.len());
}

/// A document can be looked up by its identifier from when it is added until it is
/// deleted, with the text that it was given last.
pub proof fn law_document_is_found_until_deleted(
    adding: Run,
    first_lookup: Run,
    updating: Run,
    second_lookup: Run,
    deleting: Run,
    last_lookup: Run,
    id: Seq<char>,
    text: Seq<char>,
    new_text: Seq<char>,
)
    requires
        is_unquoted(id),
        adding.runs(start_add(seq![id], seq![text])),
        names_document_columns(adding.before().schema.fields),
        rows_named(adding.before().rows, id).len() == 0,
        adding.succeeds(),
        first_lookup.runs(start_get(id)),
        first_lookup.before() == adding.after(),
        !is_failure(first_lookup.replies[0]),
        updating.runs(start_update(id, new_text)),
        updating.before() == first_lookup.after(),
        updating.succeeds(),
        second_lookup.runs(start_get(id)),
        second_lookup.before() == updating.after(),
        !is_failure(second_lookup.replies[0]),
        deleting.runs(start_delete(seq![id])),
        deleting.before() == second_lookup.after(),
        deleting.succeeds(),
        last_lookup.runs(start_get(id)),
        last_lookup.before() == deleting.after(),
        !is_failure(last_lookup.replies[0]),
    ensures
        first_lookup.end() == StepView::Finish(
            Ok(OutcomeView::Found(Some(DocumentView { id, text }))),
        ),
        second_lookup.end() == StepView::Finish(
            Ok(OutcomeView::Found(Some(DocumentView { id, text: new_text }))),
        ),
        last_lookup.end() == StepView::Finish(Ok(OutcomeView::Found(None))),
{
    law_adding_adds_rows(adding, seq![id], seq![text]);
    lemma_one_document(id, text);
    let old = DocumentView { id, text };
    assert(adding.after().rows == adding.before().rows.insert(old));
    lemma_found_alone(adding.before().rows, old);
    lemma_lookup_of_one(first_lookup, old);
    law_updating_replaces_rows(updating, id, new_text);
    let new = DocumentView { id, text: new_text };
    assert(rows_named(other_rows(updating.before().rows, id), id) =~= Multiset::empty());
    lemma_found_alone(other_rows(updating.before().rows, id), new);
    lemma_lookup_of_one(second_lookup, new);
    law_deleting_removes_rows(deleting, seq![id]);
    assert(rows_named(deleting.after().rows, id) =~= Multiset::empty());
    law_looking_up_finds_rows(last_lookup, id);
}

/// The identifier of a note can stand between quotes as it is, so that what holds of
/// such identifiers holds of notes.
pub proof fn law_note_ids_are_unquoted(id: Seq<char>)
    requires
        is_note_id(id),
    ensures
        is_unquoted(id),
{
    assert forall|i: int| 0 <= i < id.len() implies #[trigger] id[i] != '\'' by {
        assert(is_alphanumeric(id[i]));
    }
}

/// Listing leaves the table as it is and gives the number of its rows and their
/// documents, all of them if the limit allows it and as many as it allows if not.
pub proof fn law_listing_gives_all_rows(run: Run)
    requires
        run.runs(start_get_all()),
        run.succeeds(),
    ensures
        run.after() == run.before(),
        run.end() matches StepView::Finish(Ok(OutcomeView::Listed(documents, total))) && {
            &&& total == run.before().rows.len()
            &&& selects(run.before().rows, LISTING_LIMIT as nat, documents)
        },
{
    assert(run.goes_on(0));
    if run.replies.len() > 1 {
        assert(run.goes_on(1));
        if run.replies.len() > 2 {
            assert(run.goes_on(2));
        }
    }
}

// ---------------------------------------------------------------------------
// Lemmas
// ---------------------------------------------------------------------------

/// The columns of a table of documents have different names.
proof fn lemma_column_names_differ()
    ensures
        COLUMN_ID@ != COLUMN_TEXT@,
        COLUMN_ID@ != COLUMN_EMBEDDINGS@,
        COLUMN_TEXT@ != COLUMN_EMBEDDINGS@,
{
    reveal_strlit("id");
    reveal_strlit("text");
    reveal_strlit("embeddings");
    assert(COLUMN_ID@.len() == 2);
    assert(COLUMN_TEXT@.len() == 4);
    assert(COLUMN_EMBEDDINGS@.len() == 10);
}

/// Among three columns, the second and the third are found under their names if
/// nothing before them goes by these names.
proof fn lemma_first_named_of_three(columns: Seq<ColumnView>)
    requires
        columns.len() == 3,
        columns[0].name != columns[1].name,
        columns[0].name != columns[2].name,
        columns[1].name != columns[2].name,
    ensures
        first_named(columns, columns[1].name) == Some(1int),
        first_named(columns, columns[2].name) == Some(2int),
{
    reveal_with_fuel(first_named, 4);
}

/// Rows of one size lie side by side when they are flattened.
proof fn lemma_flatten_of_one_size(rows: Seq<Seq<u32>>, size: nat, row: int)
    requires
        forall|i: int| 0 <= i < rows.len() ==> #[trigger] rows[i].len() == size,
        0 <= row < rows.len(),
    ensures
        rows.flatten().len() == rows.len() * size,
        0 <= row * size <= (row + 1) * size <= rows.flatten().len(),
        rows.flatten().subrange(row * size, (row + 1) * size) == rows[row],
    decreases rows.len(),
{
    let rest = rows.drop_first();
    let flat = rows.flatten();
    assert(flat == rows.first() + rest.flatten());
    if rest.len() == 0 {
        assert(rest.flatten() =~= Seq::empty());
        assert(flat.subrange(0, size as int) =~= rows[0]);
        assert(rows.len() * size == size) by (nonlinear_arith)
            requires
                rows.len() == 1,
        ;
    } else {
        lemma_flatten_of_one_size(rest, size, if row == 0 {
            0
        } else {
            row - 1
        });
        assert(rows.len() * size == size + rest.len() * size) by (nonlinear_arith)
            requires
                rows.len() == rest.len() + 1,
        ;
        assert(flat.len() == size + rest.flatten().len());
        if row == 0 {
            assert(flat.subrange(0, size as int) =~= rows[0]);
        } else {
            assert(row * size == size + (row - 1) * size) by (nonlinear_arith);
            assert((row + 1) * size == size + row * size) by (nonlinear_arith);
            assert(flat.subrange(row * size, (row + 1) * size) =~= rest.flatten().subrange(
                (row - 1) * size,
                row * size,
            ));
        }
    }
}

/// A run that adds documents from some step on adds their rows from there on.
proof fn lemma_adding_from(run: Run, at: int, ids: Seq<Seq<char>>, text: Seq<Seq<char>>)
    requires
        run.is_complete(),
        0 <= at < run.steps.len(),
        run.steps[at] == start_add(ids, text),
        names_document_columns(run.tables[at].schema.fields),
        run.succeeds(),
    ensures
        run.end() == StepView::Finish(Ok(OutcomeView::Done)),
        run.after().schema == run.tables[at].schema,
        run.after().rows == run.tables[at].rows.add(documents_of(ids, text).to_multiset()),
        ids.len() == text.len(),
{
    assert(run.goes_on(at));
    if run.replies.len() > at + 1 {
        assert(run.goes_on(at + 1));
        if run.replies.len() > at + 2 {
            assert(run.goes_on(at + 2));
            if run.replies.len() > at + 3 {
                assert(run.goes_on(at + 3));
            }
        }
    }
    let embeddings = run.replies[at]->Embedded_0;
    let schema = run.tables[at].schema;
    assert(run.replies[at] is Embedded);
    assert(run.replies[at + 1] == ReplyView::Schema(schema));
    law_appended_rows_are_whole(embeddings, text, ids, schema, run.steps[at + 2]);
    law_written_documents_are_read_back(schema, embeddings, text, ids);
}

/// An operation whose only reply is a failure does not succeed.
proof fn lemma_failure_is_no_success(run: Run)
    requires
        run.runs(start_record_count()),
        run.succeeds(),
    ensures
        !is_failure(run.replies[0]),
{
    assert(run.goes_on(0));
    if run.replies.len() > 1 {
        assert(run.goes_on(1));
    }
}

/// One identifier and one text make one document.
proof fn lemma_one_document(id: Seq<char>, text: Seq<char>)
    ensures
        documents_of(seq![id], seq![text]).to_multiset() == Multiset::singleton(
            DocumentView { id, text },
        ),
{
    broadcast use vstd::seq_lib::group_to_multiset_ensures;

    let document = DocumentView { id, text };
    assert(documents_of(seq![id], seq![text]) =~= Seq::empty().push(document));
    assert(Seq::empty().push(document).to_multiset() =~= Multiset::singleton(document));
}

/// A row whose identifier was not taken is the only one with it.
proof fn lemma_found_alone(rows: Multiset<DocumentView>, document: DocumentView)
    requires
        rows_named(rows, document.id).len() == 0,
    ensures
        rows_named(rows.insert(document), document.id) == Multiset::singleton(document),
{
    assert(rows_named(rows, document.id) =~= Multiset::empty());
    assert forall|other: DocumentView| #[trigger]
        rows_named(rows.insert(document), document.id).count(other) == Multiset::singleton(
            document,
        ).count(other) by {
        assert(rows_named(rows, document.id).count(other) == 0);
    }
    assert(rows_named(rows.insert(document), document.id) =~= Multiset::singleton(document));
}

/// Looking up an identifier that one row has finds the document in it.
proof fn lemma_lookup_of_one(run: Run, document: DocumentView)
    requires
        run.runs(start_get(document.id)),
        is_unquoted(document.id),
        !is_failure(run.replies[0]),
        rows_named(run.before().rows, document.id) == Multiset::singleton(document),
    ensures
        run.after() == run.before(),
        run.end() == StepView::Finish(Ok(OutcomeView::Found(Some(document)))),
{
    law_looking_up_finds_rows(run, document.id);
    let found = run.end()->Finish_0->Ok_0->Found_0->0;
    assert(Multiset::singleton(found).count(document) > 0);
}

} // verus!
