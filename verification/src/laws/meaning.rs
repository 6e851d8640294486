//! What the operations are for, said of what goes in and of what comes out.
//!
//! Texts, limits and names are written out here, and rows are looked at one by one.
use vstd::prelude::*;
#[allow(unused_imports)]
use vstd::std_specs::convert::FromSpec;
#[allow(unused_imports)]
use vstd::utf8::encode_utf8;

use crate::columns::TableBatch;
use crate::document::Document;
use crate::error::{DatabaseError, EmbedStoreError};
use crate::operation::{Fault, Operation, Outcome, Reply, Request, Step};
use crate::query::TableQuery;
#[allow(unused_imports)]
use crate::batches::{
    batch_distances, batch_documents, batch_views, cell_at, column_fault, distance_views,
    distances_fault, documents_fault, embedding_views, present, read_distances, read_documents,
    record_cells, record_kinds, records_fit, table_schema,
};
#[allow(unused_imports)]
use crate::columns::{
    batch_columns, batch_fields, batch_metadata, batch_rows, first_named, schema_fields,
    schema_metadata, string_views, total_bytes, BatchView, CellValue, ColumnKind, ColumnView,
    Metadata, SchemaView,
};
#[allow(unused_imports)]
use crate::document::{document_views, DocumentView};
#[allow(unused_imports)]
use crate::error::{
    may_have_text, may_show_arrow_error, may_show_model_error, DatabaseErrorView, ErrorView,
};
#[allow(unused_imports)]
use crate::laws::law_embeddings_of_one_size_are_kept;
#[allow(unused_imports)]
use crate::note::{is_alphanumeric, is_note_id};
#[allow(unused_imports)]
use crate::operation::{
    db_uri, next, start_add, start_create_index, start_delete, start_get, start_get_all,
    start_open, start_record_count, start_search, start_update, FaultView, OperationView,
    OutcomeView, ReplyView, RequestView, StepView,
};
#[allow(unused_imports)]
use crate::query::{
    comma_separated, delete_predicate, filter_view, id_filter, limit_or, QueryView,
};
#[allow(unused_imports)]
use crate::store::{embedded_step, embedding_reply, embeds_to, may_embed, resumes_to};

verus! {

// ---------------------------------------------------------------------------
// What is asked of the model
// ---------------------------------------------------------------------------

/// A search asks the model for the embedding of the whole search text and of nothing
/// else. It goes on to the query for the numbers that the model returns, one embedding
/// after the other, under the filter and the limit that were asked for; or it ends with
/// the error of the model.
pub proof fn law_search_is_for_its_text(
    model: fastembed::TextEmbedding,
    search_text: Seq<char>,
    filter: Option<Seq<char>>,
    limit: nat,
    step: StepView,
)
    requires
        embeds_to(model, start_search(search_text, filter, limit), step),
    ensures
        match step {
            StepView::Ask { request, operation } => {
                &&& request matches RequestView::RunQuery { query }
                &&& exists|embeddings: Seq<Seq<u32>>| #[trigger]
                    may_embed(model, seq![search_text], Ok(embeddings)) && query.vector == Some(
                        embeddings.flatten(),
                    )
                &&& query.filter == filter
                &&& query.limit == limit
                &&& operation is Searching
            },
            StepView::Finish(end) => {
                &&& end matches Err(ErrorView::Embedding(e))
                &&& may_embed(model, seq![search_text], Err(e))
            },
            StepView::Broken(_) => false,
        },
{
}

/// Adding documents asks for the embedding of every text, from its first character to
/// its last, in the order of the texts, and keeps texts and identifiers as they are.
pub proof fn law_adding_embeds_whole_texts(ids: Seq<Seq<char>>, text: Seq<Seq<char>>)
    ensures
        start_add(ids, text) matches StepView::Ask { request, operation } && {
            &&& request matches RequestView::Embed { documents }
            &&& documents.len() == text.len()
            &&& forall|i: int| 0 <= i < text.len() ==> #[trigger] documents[i] == text[i]
            &&& operation == (OperationView::EmbeddingDocuments { ids, text })
        },
{
}

/// A store that adds documents goes on with what its model makes of the texts: it reads
/// the schema if there are embeddings, and the first has the right size, and keeps all
/// of them with the texts and the identifiers; it breaks off if not; and it ends with
/// the error of the model if there is one.
pub proof fn law_adding_goes_on_with_the_embeddings(
    model: fastembed::TextEmbedding,
    ids: Seq<Seq<char>>,
    text: Seq<Seq<char>>,
    step: StepView,
)
    requires
        embeds_to(model, start_add(ids, text), step),
    ensures
        match step {
            StepView::Ask { request, operation } => {
                &&& request is ReadSchema
                &&& operation matches OperationView::ReadingSchema { embeddings, ids: i, text: t }
                &&& may_embed(model, text, Ok(embeddings))
                &&& embeddings.len() > 0 && embeddings[0].len() == 384
                &&& i == ids
                &&& t == text
            },
            StepView::Broken(FaultView::NoEmbedding) => may_embed(model, text, Ok(Seq::empty())),
            StepView::Broken(fault) => {
                &&& fault is DimensionMismatch
                &&& exists|embeddings: Seq<Seq<u32>>| #[trigger]
                    may_embed(model, text, Ok(embeddings)) && embeddings.len() > 0
                        && embeddings[0].len() != 384
            },
            StepView::Finish(end) => {
                &&& end matches Err(ErrorView::Embedding(e))
                &&& may_embed(model, text, Err(e))
            },
        },
{
    let reply = choose|reply: ReplyView| #[trigger]
        embedding_reply(model, text, reply) && next(
            OperationView::EmbeddingDocuments { ids, text },
            reply,
            step,
        );
    assert(embedding_reply(model, text, reply));
    if let ReplyView::Embedded(embeddings) = reply {
        if embeddings.len() == 0 {
            assert(embeddings =~= Seq::empty());
        }
    }
}

/// A store that updates a document goes on, once the old document is deleted, with what
/// its model makes of the new text: as adding the one document does, and not otherwise.
pub proof fn law_updating_goes_on_with_the_new_text(
    model: fastembed::TextEmbedding,
    id: Seq<char>,
    new_text: Seq<char>,
    step: StepView,
)
    requires
        resumes_to(model, OperationView::Replacing { id, new_text }, ReplyView::Done, step),
    ensures
        match step {
            StepView::Ask { request, operation } => {
                &&& request is ReadSchema
                &&& operation matches OperationView::ReadingSchema { embeddings, ids, text }
                &&& may_embed(model, seq![new_text], Ok(embeddings))
                &&& ids == seq![id]
                &&& text == seq![new_text]
            },
            StepView::Broken(fault) => {
                &&& fault is NoEmbedding || fault is DimensionMismatch
                &&& exists|embeddings: Seq<Seq<u32>>| #[trigger]
                    may_embed(model, seq![new_text], Ok(embeddings)) && (embeddings.len() == 0
                        || embeddings[0].len() != 384)
            },
            StepView::Finish(end) => {
                &&& end matches Err(ErrorView::Embedding(e))
                &&& may_embed(model, seq![new_text], Err(e))
            },
        },
        exists|reply: ReplyView|
            (match reply {
                ReplyView::Embedded(e) => may_embed(model, seq![new_text], Ok(e)),
                ReplyView::NotEmbedded(e) => may_embed(model, seq![new_text], Err(e)),
                _ => false,
            }) && #[trigger] next(
                OperationView::EmbeddingDocuments { ids: seq![id], text: seq![new_text] },
                reply,
                step,
            ),
{
    let between = choose|between: StepView| #[trigger]
        next(OperationView::Replacing { id, new_text }, ReplyView::Done, between) && embeds_to(
            model,
            between,
            step,
        );
    assert(between == start_add(seq![id], seq![new_text]));
    law_adding_goes_on_with_the_embeddings(model, seq![id], seq![new_text], step);
}

/// A store resumes an operation with the very step that the operation takes, and where
/// that step asks for embeddings, with what the operation does once its model has made
/// them of the documents that are asked for, or has failed on them.
pub proof fn law_resuming_takes_the_next_step(
    model: fastembed::TextEmbedding,
    operation: OperationView,
    reply: ReplyView,
    step: StepView,
)
    requires
        resumes_to(model, operation, reply, step),
    ensures
        exists|between: StepView| #[trigger]
            next(operation, reply, between) && match between {
                StepView::Ask { request: RequestView::Embed { documents }, operation: waiting } => {
                    ||| exists|e: Seq<Seq<u32>>| #[trigger]
                        may_embed(model, documents, Ok(e)) && next(
                            waiting,
                            ReplyView::Embedded(e),
                            step,
                        )
                    ||| exists|e: anyhow::Error| #[trigger]
                        may_embed(model, documents, Err(e)) && step == StepView::Finish(
                            Err(ErrorView::Embedding(e)),
                        )
                },
                _ => step == between,
            },
{
    let between = choose|between: StepView| #[trigger]
        next(operation, reply, between) && embeds_to(model, between, step);
    if let StepView::Ask { request: RequestView::Embed { documents }, operation: waiting } = between {
        assert(embedded_step(model, documents, waiting, step));
        let made = choose|made: ReplyView| #[trigger]
            embedding_reply(model, documents, made) && next(waiting, made, step);
        assert(embedding_reply(model, documents, made));
    }
}

/// What needs no embeddings a store starts as the operation does.
pub proof fn law_other_starts_are_left_alone(
    model: fastembed::TextEmbedding,
    from: StepView,
    to: StepView,
)
    requires
        embeds_to(model, from, to),
        !(from matches StepView::Ask { request: RequestView::Embed { .. }, .. }),
    ensures
        to == from,
{
}

// ---------------------------------------------------------------------------
// What is asked of the database
// ---------------------------------------------------------------------------

/// Documents are deleted with the text `id in ('...')`, which has all identifiers
/// between its quotes, in their order and with a comma and a space between each two.
pub proof fn law_deletion_is_by_identifier(ids: Seq<Seq<char>>, id: Seq<char>)
    ensures
        delete_predicate(ids) == "id in ('"@ + comma_separated(ids) + "')"@,
        delete_predicate(Seq::empty()) == "id in ('"@ + "')"@,
        delete_predicate(seq![id]) == "id in ('"@ + id + "')"@,
        ids.len() > 0 ==> delete_predicate(ids.push(id)) == "id in ('"@ + comma_separated(ids)
            + ", "@ + id + "')"@,
        start_delete(ids) == (StepView::Ask {
            request: RequestView::DeleteRows { predicate: "id in ('"@ + comma_separated(ids) + "')"@ },
            operation: OperationView::Deleting,
        }),
        start_delete(seq![id]) == (StepView::Ask {
            request: RequestView::DeleteRows { predicate: "id in ('"@ + id + "')"@ },
            operation: OperationView::Deleting,
        }),
{
    assert(comma_separated(seq![id]) == id);
    assert("id in ('"@ + Seq::<char>::empty() + "')"@ =~= "id in ('"@ + "')"@);
    if ids.len() > 0 {
        assert(ids.push(id).drop_last() =~= ids);
        assert(comma_separated(ids.push(id)) == comma_separated(ids) + ", "@ + id);
        assert("id in ('"@ + (comma_separated(ids) + ", "@ + id) + "')"@ =~= "id in ('"@
            + comma_separated(ids) + ", "@ + id + "')"@);
    }
}

/// Between the quotes stand the identifiers: nothing for none, the identifier for one,
/// and one more after a comma and a space for one more.
pub proof fn law_identifiers_are_joined_by_commas(ids: Seq<Seq<char>>, id: Seq<char>)
    ensures
        comma_separated(Seq::empty()) == Seq::<char>::empty(),
        comma_separated(seq![id]) == id,
        ids.len() > 0 ==> comma_separated(ids.push(id)) == comma_separated(ids) + ", "@ + id,
{
    if ids.len() > 0 {
        assert(ids.push(id).drop_last() =~= ids);
    }
}

/// A document is looked up with the text `id = '...'` around its identifier, without a
/// vector, and for at most ten rows.
pub proof fn law_lookup_is_by_identifier(id: Seq<char>)
    ensures
        start_get(id) == (StepView::Ask {
            request: RequestView::RunQuery {
                query: QueryView { vector: None, filter: Some("id = '"@ + id + "'"@), limit: 10 },
            },
            operation: OperationView::Fetching,
        }),
        id_filter(id) == "id = '"@ + id + "'"@,
{
}

/// Replacing a document asks for the deletion of its identifier, and keeps the
/// identifier and the new text for later.
pub proof fn law_updating_starts_with_a_deletion(id: Seq<char>, text: Seq<char>)
    ensures
        start_update(id, text) == (StepView::Ask {
            request: RequestView::DeleteRows { predicate: "id in ('"@ + id + "')"@ },
            operation: OperationView::Replacing { id, new_text: text },
        }),
{
    assert(comma_separated(seq![id]) == id);
}

/// Counting and listing start with the number of rows, and the index is created on the
/// embeddings.
pub proof fn law_plain_starts()
    ensures
        start_record_count() == (StepView::Ask {
            request: RequestView::CountRows,
            operation: OperationView::Counting,
        }),
        start_get_all() == (StepView::Ask {
            request: RequestView::CountRows,
            operation: OperationView::CountingAll,
        }),
        start_create_index() == (StepView::Ask {
            request: RequestView::CreateIndex { columns: seq!["embeddings"@] },
            operation: OperationView::Indexing,
        }),
{
}

/// A search starts with the embedding of its text, and keeps its filter and its limit.
/// The limit that a search has by itself is twenty-five, and a filter is taken as it is.
pub proof fn law_search_keeps_what_is_asked(
    search_text: Seq<char>,
    filter: Option<&str>,
    limit: Option<usize>,
)
    ensures
        start_search(search_text, filter_view(filter), limit_or(limit, 25)) matches StepView::Ask {
            request,
            operation,
        } && {
            &&& request == (RequestView::Embed { documents: seq![search_text] })
            &&& operation matches OperationView::EmbeddingQuery { filter: kept, limit: most }
            &&& match filter {
                Some(clause) => kept == Some(clause@),
                None => kept is None,
            }
            &&& match limit {
                Some(n) => most == n,
                None => most == 25,
            }
        },
{
}

/// Opening the store connects to `../data/sample-lancedb`, lists the tables, and opens
/// the table `documents` if it is there or creates it empty if it is not; then the store
/// is open.
pub proof fn law_opening_step_by_step(
    names: Seq<Seq<char>>,
    connected: StepView,
    listed: StepView,
    opened: StepView,
)
    requires
        next(OperationView::Connecting, ReplyView::Done, connected),
        next(OperationView::ListingTables, ReplyView::Tables(names), listed),
        next(OperationView::OpeningTable, ReplyView::Done, opened),
    ensures
        start_open() == (StepView::Ask {
            request: RequestView::Connect { uri: "../data/sample-lancedb"@ },
            operation: OperationView::Connecting,
        }),
        db_uri() == "../data/sample-lancedb"@,
        connected == (StepView::Ask {
            request: RequestView::ListTables,
            operation: OperationView::ListingTables,
        }),
        listed matches StepView::Ask { request, operation } && {
            &&& operation is OpeningTable
            &&& names.contains("documents"@) ==> request == (RequestView::OpenTable {
                name: "documents"@,
            })
            &&& !names.contains("documents"@) ==> request == (RequestView::CreateTable {
                name: "documents"@,
                schema: table_schema(384),
            })
        },
        opened == StepView::Finish(Ok(OutcomeView::Opened)),
{
    reveal_strlit("../data");
    reveal_strlit("/");
    reveal_strlit("sample-lancedb");
    reveal_strlit("../data/sample-lancedb");
    assert("../data"@ + "/"@ + "sample-lancedb"@ =~= "../data/sample-lancedb"@);
    assert(db_uri() == "../data/sample-lancedb"@);
}

/// A table has a column `embeddings` of lists of as many floats as asked for, which may
/// be missing, and columns `text` and `id` of strings, which may not. There is no
/// metadata.
pub proof fn law_table_has_three_columns(size: int)
    ensures
        ({
            let schema = table_schema(size);
            &&& schema.metadata == Metadata::empty()
            &&& schema.fields.len() == 3
            &&& schema.fields[0].name == "embeddings"@
            &&& schema.fields[1].name == "text"@
            &&& schema.fields[2].name == "id"@
            &&& schema.fields[0].kind == (ColumnKind::FloatList {
                item_name: "item"@,
                item_nullable: true,
                size,
            })
            &&& schema.fields[1].kind == ColumnKind::Utf8
            &&& schema.fields[2].kind == ColumnKind::Utf8
            &&& schema.fields[0].nullable
            &&& !schema.fields[1].nullable
            &&& !schema.fields[2].nullable
            &&& forall|i: int|
                0 <= i < 3 ==> (#[trigger] schema.fields[i]).metadata == Metadata::empty()
        }),
{
}

// ---------------------------------------------------------------------------
// What becomes of the answers
// ---------------------------------------------------------------------------

/// Work without a result that is done ends the operation well.
pub proof fn law_done_is_done(operation: OperationView, step: StepView)
    requires
        next(operation, ReplyView::Done, step),
        operation is Appending || operation is Deleting || operation is Indexing,
    ensures
        step == StepView::Finish(Ok(OutcomeView::Done)),
{
}

/// The number of rows is what counting comes to. Listing keeps it, and queries for a
/// thousand rows without a filter.
pub proof fn law_counts_are_handed_on(count: nat, counted: StepView, listing: StepView)
    requires
        next(OperationView::Counting, ReplyView::Count(count), counted),
        next(OperationView::CountingAll, ReplyView::Count(count), listing),
    ensures
        counted == StepView::Finish(Ok(OutcomeView::Count(count))),
        listing == (StepView::Ask {
            request: RequestView::RunQuery {
                query: QueryView { vector: None, filter: None, limit: 1000 },
            },
            operation: OperationView::ListingAll { total: count },
        }),
{
}

/// Listing, looking up and searching come to the documents that are read from the result
/// of the query, and to the reason if none can be read.
pub proof fn law_results_are_handed_on(
    batches: Seq<BatchView>,
    total: nat,
    listed: StepView,
    fetched: StepView,
    ranked: StepView,
)
    requires
        next(OperationView::ListingAll { total }, ReplyView::Batches(batches), listed),
        next(OperationView::Fetching, ReplyView::Batches(batches), fetched),
        next(OperationView::Searching, ReplyView::Batches(batches), ranked),
    ensures
        match read_documents(batches) {
            Ok(documents) => {
                &&& listed == StepView::Finish(Ok(OutcomeView::Listed(documents, total)))
                &&& documents.len() == 0 ==> fetched == StepView::Finish(
                    Ok(OutcomeView::Found(None)),
                )
                &&& documents.len() == 1 ==> fetched == StepView::Finish(
                    Ok(OutcomeView::Found(Some(documents[0]))),
                )
                &&& documents.len() > 1 ==> fetched == StepView::Broken(FaultView::AmbiguousId)
            },
            Err(message) => {
                &&& listed == StepView::Finish(Err(ErrorView::Runtime(message)))
                &&& fetched == StepView::Finish(Err(ErrorView::Runtime(message)))
            },
        },
        match read_distances(batches) {
            Ok(documents) => ranked == StepView::Finish(Ok(OutcomeView::Ranked(documents))),
            Err(message) => ranked == StepView::Finish(Err(ErrorView::Runtime(message))),
        },
{
}

/// The embeddings of a search become the vector of its query, one after the other, and
/// those of documents are kept if there are any and the first has the right size.
pub proof fn law_embeddings_are_handed_on(
    ids: Seq<Seq<char>>,
    text: Seq<Seq<char>>,
    filter: Option<Seq<char>>,
    limit: nat,
    embeddings: Seq<Seq<u32>>,
    adding: StepView,
    searching: StepView,
)
    requires
        next(
            OperationView::EmbeddingDocuments { ids, text },
            ReplyView::Embedded(embeddings),
            adding,
        ),
        next(
            OperationView::EmbeddingQuery { filter, limit },
            ReplyView::Embedded(embeddings),
            searching,
        ),
    ensures
        embeddings.len() == 0 ==> adding == StepView::Broken(FaultView::NoEmbedding),
        embeddings.len() > 0 && embeddings[0].len() != 384 ==> adding == StepView::Broken(
            FaultView::DimensionMismatch,
        ),
        embeddings.len() > 0 && embeddings[0].len() == 384 ==> adding == (StepView::Ask {
            request: RequestView::ReadSchema,
            operation: OperationView::ReadingSchema { embeddings, ids, text },
        }),
        searching == (StepView::Ask {
            request: RequestView::RunQuery {
                query: QueryView { vector: Some(embeddings.flatten()), filter, limit },
            },
            operation: OperationView::Searching,
        }),
{
}

/// Deleting the old document is followed by the embedding of the new text.
pub proof fn law_deletion_is_followed_by_the_new_text(
    id: Seq<char>,
    new_text: Seq<char>,
    step: StepView,
)
    requires
        next(OperationView::Replacing { id, new_text }, ReplyView::Done, step),
    ensures
        step == (StepView::Ask {
            request: RequestView::Embed { documents: seq![new_text] },
            operation: OperationView::EmbeddingDocuments { ids: seq![id], text: seq![new_text] },
        }),
{
}

// ---------------------------------------------------------------------------
// What is written
// ---------------------------------------------------------------------------

/// The bytes of strings add up.
pub proof fn law_bytes_add_up(strings: Seq<Seq<char>>, string: Seq<char>)
    ensures
        total_bytes(Seq::empty()) == 0,
        total_bytes(strings.push(string)) == total_bytes(strings) + encode_utf8(string).len(),
{
    assert(strings.push(string).drop_last() =~= strings);
}

/// Documents are appended exactly when Arrow can hold them and the table takes them: when
/// the embeddings fill as many lists of the size of the first as there are embeddings,
/// the strings stay within 32-bit sizes, the table has a column of such lists and two of
/// strings, and there is one text and one identifier for each embedding. Where Arrow
/// cannot hold them, or the table does not take them, adding breaks off.
pub proof fn law_documents_are_appended_when_they_fit(
    embeddings: Seq<Seq<u32>>,
    text: Seq<Seq<char>>,
    ids: Seq<Seq<char>>,
    schema: SchemaView,
    step: StepView,
)
    requires
        next(
            OperationView::ReadingSchema { embeddings, ids, text },
            ReplyView::Schema(schema),
            step,
        ),
    ensures
        ({
            let held = {
                &&& embeddings.len() > 0
                &&& embeddings[0].len() <= 0x7fff_ffff
                &&& embeddings.flatten().len() == embeddings.len() * embeddings[0].len()
                &&& total_bytes(text) <= 0x7fff_ffff
                &&& total_bytes(ids) <= 0x7fff_ffff
            };
            let taken = {
                &&& schema.fields.len() == 3
                &&& schema.fields[0].kind == (ColumnKind::FloatList {
                    item_name: "item"@,
                    item_nullable: true,
                    size: embeddings[0].len() as int,
                })
                &&& schema.fields[1].kind == ColumnKind::Utf8
                &&& schema.fields[2].kind == ColumnKind::Utf8
                &&& text.len() == embeddings.len()
                &&& ids.len() == embeddings.len()
            };
            &&& !held ==> step == StepView::Broken(FaultView::Unstorable)
            &&& held && !taken ==> step is Broken && step->Broken_0 is RejectedBatch
            &&& held && taken ==> {
                &&& step is Ask
                &&& step->request is Append
                &&& step->operation is Appending
            }
        }),
{
    let kinds = record_kinds(embeddings);
    let cells = record_cells(embeddings, text, ids);
    let fields = schema.fields;
    assert(cells[0].len() == embeddings.len());
    assert(cells[1].len() == text.len());
    assert(cells[2].len() == ids.len());
    if records_fit(fields, embeddings, text, ids) {
        assert(fields[0].kind == kinds[0]);
        assert(fields[1].kind == kinds[1]);
        assert(fields[2].kind == kinds[2]);
    } else if fields.len() == 3 && fields[0].kind == kinds[0] && fields[1].kind == kinds[1]
        && fields[2].kind == kinds[2] && text.len() == embeddings.len() && ids.len()
        == embeddings.len() {
        assert(forall|i: int| 0 <= i < 3 ==> #[trigger] fields[i].kind == kinds[i]);
        assert(forall|i: int| 0 <= i < 3 ==> #[trigger] cells[i].len() == cells[0].len());
        assert(forall|i: int, j: int|
            0 <= i < 3 && 0 <= j < cells[i].len() ==> !(#[trigger] cells[i][j]).null);
    }
}

/// What is appended is one batch under the schema of the table. Its columns go by the
/// names of the schema, and each row holds the text and the identifier of one document,
/// in the order in which they were added, and next to them the numbers of its embedding.
/// Embeddings of different sizes are laid out one after the other and cut anew.
pub proof fn law_appended_rows_hold_the_documents(
    embeddings: Seq<Seq<u32>>,
    text: Seq<Seq<char>>,
    ids: Seq<Seq<char>>,
    schema: SchemaView,
    step: StepView,
    row: int,
)
    requires
        next(
            OperationView::ReadingSchema { embeddings, ids, text },
            ReplyView::Schema(schema),
            step,
        ),
        step is Ask,
        0 <= row < embeddings.len(),
    ensures
        step->request matches RequestView::Append { batches, schema: given } && {
            let columns = batches[0].columns;
            &&& given == schema
            &&& batches.len() == 1
            &&& batches[0].schema == schema
            &&& batches[0].rows == embeddings.len()
            &&& columns.len() == 3
            &&& forall|i: int| 0 <= i < 3 ==> (#[trigger] columns[i]).name == schema.fields[i].name
            &&& forall|i: int| 0 <= i < 3 ==> (#[trigger] columns[i]).kind == schema.fields[i].kind
            &&& forall|i: int| 0 <= i < 3 ==> (#[trigger] columns[i]).cells.len() == embeddings.len()
            &&& !columns[0].cells[row].null && !columns[1].cells[row].null
                && !columns[2].cells[row].null
            &&& columns[1].cells[row].value == CellValue::Text(text[row])
            &&& columns[2].cells[row].value == CellValue::Text(ids[row])
            &&& columns[0].cells[row].value matches CellValue::Floats(floats)
            &&& floats.len() == embeddings[0].len()
            &&& forall|k: int|
                0 <= k < floats.len() ==> #[trigger] floats[k] == Some(
                    embeddings.flatten()[row * embeddings[0].len() + k],
                )
            &&& (forall|i: int|
                0 <= i < embeddings.len() ==> #[trigger] embeddings[i].len()
                    == embeddings[0].len()) ==> forall|k: int|
                0 <= k < floats.len() ==> #[trigger] floats[k] == Some(embeddings[row][k])
        },
{
    let kinds = record_kinds(embeddings);
    let cells = record_cells(embeddings, text, ids);
    let columns = step->request->batches[0].columns;
    let size = embeddings[0].len();
    assert(cells[0].len() == embeddings.len());
    assert(cells[1].len() == text.len());
    assert(cells[2].len() == ids.len());
    assert(schema.fields[0].kind == kinds[0]);
    assert(schema.fields[1].kind == kinds[1]);
    assert(schema.fields[2].kind == kinds[2]);
    let flat = embeddings.flatten();
    assert(0 <= row * size && (row + 1) * size == row * size + size && (row + 1) * size
        <= embeddings.len() * size) by (nonlinear_arith)
        requires
            0 <= row < embeddings.len(),
            size >= 0,
    ;
    assert(columns[0].cells[row].value == CellValue::Floats(
        present(flat).subrange(row * size, (row + 1) * size),
    ));
    if forall|i: int| 0 <= i < embeddings.len() ==> #[trigger] embeddings[i].len() == size {
        law_embeddings_of_one_size_are_kept(schema, embeddings, text, ids, row);
    }
}

// ---------------------------------------------------------------------------
// What is read
// ---------------------------------------------------------------------------

/// The column is the first of its name.
pub open spec fn is_first(columns: Seq<ColumnView>, at: int, name: Seq<char>) -> bool {
    &&& 0 <= at < columns.len()
    &&& columns[at].name == name
    &&& forall|i: int| 0 <= i < at ==> (#[trigger] columns[i]).name != name
}

/// No column has the name.
pub open spec fn has_none(columns: Seq<ColumnView>, name: Seq<char>) -> bool {
    forall|i: int| 0 <= i < columns.len() ==> (#[trigger] columns[i]).name != name
}

/// A column is found under a name if it is the first of that name, and none is found if
/// there is none.
pub proof fn law_first_column_of_a_name_is_found(
    columns: Seq<ColumnView>,
    name: Seq<char>,
    at: int,
)
    ensures
        is_first(columns, at, name) <==> first_named(columns, name) == Some(at),
        has_none(columns, name) <==> first_named(columns, name) is None,
    decreases columns.len(),
{
    if columns.len() > 0 {
        let rest = columns.drop_last();
        let last = columns.len() - 1;
        law_first_column_of_a_name_is_found(rest, name, at);
        assert(forall|i: int| 0 <= i < last ==> #[trigger] rest[i] == columns[i]);
        if let Some(found) = first_named(rest, name) {
            law_first_column_of_a_name_is_found(rest, name, found);
            assert(columns[found].name == name);
            assert forall|i: int| 0 <= i < found implies (#[trigger] columns[i]).name != name by {
                assert(rest[i].name != name);
            }
            assert(is_first(columns, found, name));
            if is_first(columns, at, name) && at > found {
                assert(columns[found].name != name);
            }
        } else {
            assert(has_none(rest, name));
            assert forall|i: int| 0 <= i < last implies (#[trigger] columns[i]).name != name by {
                assert(rest[i].name != name);
            }
            if columns[last].name == name {
                assert(is_first(columns, last, name));
                if is_first(columns, at, name) {
                    assert(columns[at].name == name);
                }
            }
        }
    }
}

/// A column is missing where none has the name, and of the wrong type where the first one
/// of the name is of another kind; the reason says so and names the column. The cells are
/// those of the first column of the name.
pub proof fn law_columns_are_looked_up(
    batch: BatchView,
    name: Seq<char>,
    kind: ColumnKind,
    at: int,
    row: int,
)
    ensures
        has_none(batch.columns, name) ==> column_fault(batch, name, kind) == Some(
            name + " column not found"@,
        ),
        is_first(batch.columns, at, name) ==> {
            &&& batch.columns[at].kind != kind ==> column_fault(batch, name, kind) == Some(
                "Failed downcasting "@ + name + " column"@,
            )
            &&& batch.columns[at].kind == kind ==> column_fault(batch, name, kind) is None
            &&& cell_at(batch, name, row) == batch.columns[at].cells[row].value
        },
{
    law_first_column_of_a_name_is_found(batch.columns, name, at);
}

/// Every row of a batch with string columns `id` and `text` is read as one document, in
/// the order of the rows: its identifier and its text are the strings in that row of
/// those columns.
pub proof fn law_rows_are_read_from_their_columns(batch: BatchView, id_at: int, text_at: int)
    requires
        is_first(batch.columns, id_at, "id"@),
        is_first(batch.columns, text_at, "text"@),
        batch.columns[id_at].kind == ColumnKind::Utf8,
        batch.columns[text_at].kind == ColumnKind::Utf8,
    ensures
        read_documents(seq![batch]) matches Ok(documents) && {
            &&& documents.len() == batch.rows
            &&& forall|row: int|
                0 <= row < batch.rows ==> {
                    let document = #[trigger] documents[row];
                    &&& batch.columns[id_at].cells[row].value matches CellValue::Text(id)
                        ==> document.id == id
                    &&& batch.columns[text_at].cells[row].value matches CellValue::Text(text)
                        ==> document.text == text
                }
        },
{
    law_first_column_of_a_name_is_found(batch.columns, "id"@, id_at);
    law_first_column_of_a_name_is_found(batch.columns, "text"@, text_at);
    lemma_reading_one(batch);
}

/// Where there is a column `_distance` of floats too, every document comes with the float
/// in its row of that column.
pub proof fn law_distances_are_read_from_their_column(
    batch: BatchView,
    id_at: int,
    text_at: int,
    distance_at: int,
)
    requires
        is_first(batch.columns, id_at, "id"@),
        is_first(batch.columns, text_at, "text"@),
        is_first(batch.columns, distance_at, "_distance"@),
        batch.columns[id_at].kind == ColumnKind::Utf8,
        batch.columns[text_at].kind == ColumnKind::Utf8,
        batch.columns[distance_at].kind == ColumnKind::Float32,
    ensures
        read_distances(seq![batch]) matches Ok(ranked) && {
            &&& ranked.len() == batch.rows
            &&& forall|row: int|
                0 <= row < batch.rows ==> {
                    let pair = #[trigger] ranked[row];
                    &&& batch.columns[id_at].cells[row].value matches CellValue::Text(id)
                        ==> pair.0.id == id
                    &&& batch.columns[text_at].cells[row].value matches CellValue::Text(text)
                        ==> pair.0.text == text
                    &&& batch.columns[distance_at].cells[row].value matches CellValue::Float(bits)
                        ==> pair.1 == bits
                }
        },
{
    law_first_column_of_a_name_is_found(batch.columns, "id"@, id_at);
    law_first_column_of_a_name_is_found(batch.columns, "text"@, text_at);
    law_first_column_of_a_name_is_found(batch.columns, "_distance"@, distance_at);
    lemma_reading_one(batch);
}

/// Nothing is read from no batches, and that is no error.
pub proof fn law_no_batches_hold_nothing()
    ensures
        read_documents(Seq::empty()) == Ok::<Seq<DocumentView>, Seq<char>>(Seq::empty()),
        read_distances(Seq::empty()) == Ok::<Seq<(DocumentView, u32)>, Seq<char>>(Seq::empty()),
{
}

/// Why a batch cannot be read: the column `id` is missing or of another type, or else the
/// column `text` is, or else, if distances are read, the column `_distance` is.
pub proof fn law_faulty_batches_are_explained(
    batch: BatchView,
    id_at: int,
    text_at: int,
    distance_at: int,
)
    ensures
        ({
            let columns = batch.columns;
            let good_id = is_first(columns, id_at, "id"@) && columns[id_at].kind
                == ColumnKind::Utf8;
            let good_text = is_first(columns, text_at, "text"@) && columns[text_at].kind
                == ColumnKind::Utf8;
            let documents = read_documents(seq![batch]);
            let ranked = read_distances(seq![batch]);
            &&& has_none(columns, "id"@) ==> {
                &&& documents matches Err(m) && m == "id column not found"@
                &&& ranked matches Err(m) && m == "id column not found"@
            }
            &&& is_first(columns, id_at, "id"@) && !good_id ==> {
                &&& documents matches Err(m) && m == "Failed downcasting id column"@
                &&& ranked matches Err(m) && m == "Failed downcasting id column"@
            }
            &&& good_id && has_none(columns, "text"@) ==> {
                &&& documents matches Err(m) && m == "text column not found"@
                &&& ranked matches Err(m) && m == "text column not found"@
            }
            &&& good_id && is_first(columns, text_at, "text"@) && !good_text ==> {
                &&& documents matches Err(m) && m == "Failed downcasting text column"@
                &&& ranked matches Err(m) && m == "Failed downcasting text column"@
            }
            &&& good_id && good_text && has_none(columns, "_distance"@) ==> {
                ranked matches Err(m) && m == "_distance column not found"@
            }
            &&& good_id && good_text && is_first(columns, distance_at, "_distance"@)
                && columns[distance_at].kind != ColumnKind::Float32 ==> {
                ranked matches Err(m) && m == "Failed downcasting _distance column"@
            }
        }),
{
    law_first_column_of_a_name_is_found(batch.columns, "id"@, id_at);
    law_first_column_of_a_name_is_found(batch.columns, "text"@, text_at);
    law_first_column_of_a_name_is_found(batch.columns, "_distance"@, distance_at);
    lemma_reading_one(batch);
    lemma_messages();
}

// ---------------------------------------------------------------------------
// What the views show
// ---------------------------------------------------------------------------

/// A document is shown by its identifier and its text, and a query by all that it says.
pub proof fn law_views_of_documents_and_queries(document: Document, query: TableQuery)
    ensures
        document@.id == document.id@,
        document@.text == document.text@,
        match query.vector {
            Some(vector) => query@.vector == Some(vector@),
            None => query@.vector is None,
        },
        match query.filter {
            Some(filter) => query@.filter == Some(filter@),
            None => query@.filter is None,
        },
        query@.limit == query.limit,
{
}

/// Collections are shown item by item.
pub proof fn law_views_of_collections(
    strings: Seq<String>,
    embeddings: Seq<Vec<u32>>,
    documents: Seq<Document>,
    ranked: Seq<(Document, u32)>,
    batches: Seq<TableBatch>,
)
    ensures
        string_views(strings).len() == strings.len(),
        forall|i: int| 0 <= i < strings.len() ==> #[trigger] string_views(strings)[i] == strings[i]@,
        embedding_views(embeddings).len() == embeddings.len(),
        forall|i: int|
            0 <= i < embeddings.len() ==> #[trigger] embedding_views(embeddings)[i]
                == embeddings[i]@,
        document_views(documents).len() == documents.len(),
        forall|i: int|
            0 <= i < documents.len() ==> {
                &&& (#[trigger] document_views(documents)[i]).id == documents[i].id@
                &&& document_views(documents)[i].text == documents[i].text@
            },
        distance_views(ranked).len() == ranked.len(),
        forall|i: int|
            0 <= i < ranked.len() ==> {
                &&& (#[trigger] distance_views(ranked)[i]).0.id == ranked[i].0.id@
                &&& distance_views(ranked)[i].0.text == ranked[i].0.text@
                &&& distance_views(ranked)[i].1 == ranked[i].1
            },
        batch_views(batches).len() == batches.len(),
        forall|i: int|
            0 <= i < batches.len() ==> {
                &&& (#[trigger] batch_views(batches)[i]).rows == batch_rows(batches[i])
                &&& batch_views(batches)[i].columns == batch_columns(batches[i])
                &&& batch_views(batches)[i].schema.fields == batch_fields(batches[i])
                &&& batch_views(batches)[i].schema.metadata == batch_metadata(batches[i])
            },
{
}

/// A request is shown by its kind and by all that it asks for.
pub proof fn law_views_of_requests(request: Request)
    ensures
        match request {
            Request::Connect { uri } => request@ matches RequestView::Connect { uri: u } && u == uri@,
            Request::ListTables => request@ is ListTables,
            Request::OpenTable { name } => request@ matches RequestView::OpenTable { name: n }
                && n == name@,
            Request::CreateTable { name, schema } => {
                &&& request@ matches RequestView::CreateTable { name: n, schema: s }
                &&& n == name@
                &&& s.fields == schema_fields(*schema)
                &&& s.metadata == schema_metadata(*schema)
            },
            Request::Embed { documents } => request@ matches RequestView::Embed { documents: d }
                && d == string_views(documents@),
            Request::ReadSchema => request@ is ReadSchema,
            Request::Append { batches, schema } => {
                &&& request@ matches RequestView::Append { batches: b, schema: s }
                &&& b == batch_views(batches@)
                &&& s.fields == schema_fields(*schema)
                &&& s.metadata == schema_metadata(*schema)
            },
            Request::CountRows => request@ is CountRows,
            Request::RunQuery { query } => request@ matches RequestView::RunQuery { query: q }
                && q == query@,
            Request::DeleteRows { predicate } => request@ matches RequestView::DeleteRows {
                predicate: p,
            } && p == predicate@,
            Request::CreateIndex { columns } => request@ matches RequestView::CreateIndex {
                columns: c,
            } && c == string_views(columns@),
        },
{
}

/// A reply is shown by its kind and by all that it tells.
pub proof fn law_views_of_replies(reply: Reply)
    ensures
        match reply {
            Reply::Done => reply@ is Done,
            Reply::Tables(names) => reply@ matches ReplyView::Tables(n) && n == string_views(names@),
            Reply::Embedded(e) => reply@ matches ReplyView::Embedded(v) && v == embedding_views(e@),
            Reply::NotEmbedded(e) => reply@ matches ReplyView::NotEmbedded(cause) && cause == e,
            Reply::Schema(schema) => {
                &&& reply@ matches ReplyView::Schema(s)
                &&& s.fields == schema_fields(*schema)
                &&& s.metadata == schema_metadata(*schema)
            },
            Reply::Count(count) => reply@ matches ReplyView::Count(c) && c == count,
            Reply::Batches(b) => reply@ matches ReplyView::Batches(v) && v == batch_views(b@),
            Reply::Failed(DatabaseError::Refused { message }) => reply@ matches ReplyView::Failed(
                DatabaseErrorView::Refused { message: m },
            ) && m == message@,
            Reply::Failed(DatabaseError::Runtime { message }) => reply@ matches ReplyView::Failed(
                DatabaseErrorView::Runtime { message: m },
            ) && m == message@,
            Reply::Interrupted { message } => reply@ matches ReplyView::Interrupted { message: m }
                && m == message@,
        },
{
}

/// A waiting operation is shown by what it waits for and by all that it keeps.
pub proof fn law_views_of_operations(operation: Operation)
    ensures
        match operation {
            Operation::Connecting => operation@ is Connecting,
            Operation::ListingTables => operation@ is ListingTables,
            Operation::OpeningTable => operation@ is OpeningTable,
            Operation::EmbeddingDocuments { ids, text } => {
                &&& operation@ matches OperationView::EmbeddingDocuments { ids: i, text: t }
                &&& i == string_views(ids@)
                &&& t == string_views(text@)
            },
            Operation::ReadingSchema { embeddings, ids, text } => {
                &&& operation@ matches OperationView::ReadingSchema { embeddings: e, ids: i, text: t }
                &&& e == embedding_views(embeddings@)
                &&& i == string_views(ids@)
                &&& t == string_views(text@)
            },
            Operation::Appending => operation@ is Appending,
            Operation::Deleting => operation@ is Deleting,
            Operation::Replacing { id, new_text } => {
                &&& operation@ matches OperationView::Replacing { id: i, new_text: t }
                &&& i == id@
                &&& t == new_text@
            },
            Operation::Counting => operation@ is Counting,
            Operation::CountingAll => operation@ is CountingAll,
            Operation::ListingAll { total } => operation@ matches OperationView::ListingAll {
                total: t,
            } && t == total,
            Operation::Fetching => operation@ is Fetching,
            Operation::EmbeddingQuery { filter, limit } => {
                &&& operation@ matches OperationView::EmbeddingQuery { filter: f, limit: l }
                &&& match filter {
                    Some(clause) => f == Some(clause@),
                    None => f is None,
                }
                &&& l == limit
            },
            Operation::Searching => operation@ is Searching,
            Operation::Indexing => operation@ is Indexing,
        },
{
}

/// A step is shown by its kind and by all that it holds: what is asked for and what waits,
/// how the operation ended, or why it broke off.
pub proof fn law_views_of_steps(step: Step)
    ensures
        match step {
            Step::Ask { request, operation } => {
                &&& step@ matches StepView::Ask { request: r, operation: o }
                &&& r == request@
                &&& o == operation@
            },
            Step::Finish(Ok(Outcome::Opened)) => step@ == StepView::Finish(Ok(OutcomeView::Opened)),
            Step::Finish(Ok(Outcome::Done)) => step@ == StepView::Finish(Ok(OutcomeView::Done)),
            Step::Finish(Ok(Outcome::Count(count))) => step@ == StepView::Finish(
                Ok(OutcomeView::Count(count as nat)),
            ),
            Step::Finish(Ok(Outcome::Found(found))) => match found {
                Some(document) => step@ == StepView::Finish(
                    Ok(OutcomeView::Found(Some(document@))),
                ),
                None => step@ == StepView::Finish(Ok(OutcomeView::Found(None))),
            },
            Step::Finish(Ok(Outcome::Listed(documents, total))) => step@ == StepView::Finish(
                Ok(OutcomeView::Listed(document_views(documents@), total as nat)),
            ),
            Step::Finish(Ok(Outcome::Ranked(documents))) => step@ == StepView::Finish(
                Ok(OutcomeView::Ranked(distance_views(documents@))),
            ),
            Step::Finish(Err(e)) => step@ == StepView::Finish(Err(e@)),
            Step::Broken(Fault::NoEmbedding) => step@ == StepView::Broken(FaultView::NoEmbedding),
            Step::Broken(Fault::DimensionMismatch) => step@ == StepView::Broken(
                FaultView::DimensionMismatch,
            ),
            Step::Broken(Fault::Unstorable) => step@ == StepView::Broken(FaultView::Unstorable),
            Step::Broken(Fault::RejectedBatch(e)) => step@ == StepView::Broken(
                FaultView::RejectedBatch(e),
            ),
            Step::Broken(Fault::AmbiguousId) => step@ == StepView::Broken(FaultView::AmbiguousId),
        },
{
}

/// An error is shown by where it comes from and by what it says.
pub proof fn law_views_of_errors(error: EmbedStoreError)
    ensures
        match error {
            EmbedStoreError::VectorDb(DatabaseError::Refused { message }) => error@
                == ErrorView::VectorDb(DatabaseErrorView::Refused { message: message@ }),
            EmbedStoreError::VectorDb(DatabaseError::Runtime { message }) => error@
                == ErrorView::VectorDb(DatabaseErrorView::Runtime { message: message@ }),
            EmbedStoreError::Arrow(e) => error@ == ErrorView::Arrow(e),
            EmbedStoreError::Embedding(e) => error@ == ErrorView::Embedding(e),
            EmbedStoreError::Runtime(message) => error@ == ErrorView::Runtime(message@),
        },
{
}

/// The identifiers of new notes are the strings of six ASCII letters and digits, and all
/// of them.
pub proof fn law_note_ids_are_six_letters_and_digits(id: Seq<char>)
    ensures
        is_note_id(id) <==> {
            &&& id.len() == 6
            &&& forall|i: int|
                0 <= i < 6 ==> {
                    let c = #[trigger] id[i];
                    'a' <= c <= 'z' || 'A' <= c <= 'Z' || '0' <= c <= '9'
                }
        },
{
    if id.len() == 6 && !is_note_id(id) {
        let i = choose|i: int| 0 <= i < id.len() && !is_alphanumeric(#[trigger] id[i]);
        assert(!is_alphanumeric(id[i]));
    }
    if is_note_id(id) {
        assert(forall|i: int| 0 <= i < 6 ==> is_alphanumeric(#[trigger] id[i]));
    }
}

/// The text of an error is its message, and for an error from elsewhere it is what that
/// error is shown as.
pub proof fn law_texts_of_errors(error: EmbedStoreError, text: Seq<char>)
    ensures
        may_have_text(error@, text) <==> match error {
            EmbedStoreError::VectorDb(DatabaseError::Refused { message }) => text == message@,
            EmbedStoreError::VectorDb(DatabaseError::Runtime { message }) => text == message@,
            EmbedStoreError::Arrow(e) => may_show_arrow_error(e, text),
            EmbedStoreError::Embedding(e) => may_show_model_error(e, text),
            EmbedStoreError::Runtime(message) => text == message@,
        },
{
}

/// Errors are wrapped by where they come from, and kept.
pub proof fn law_errors_are_wrapped(
    database: DatabaseError,
    arrow: arrow_schema::ArrowError,
    model: anyhow::Error,
)
    ensures
        <EmbedStoreError as FromSpec<DatabaseError>>::from_spec(database)
            == EmbedStoreError::VectorDb(database),
        <EmbedStoreError as FromSpec<arrow_schema::ArrowError>>::from_spec(arrow)
            == EmbedStoreError::Arrow(arrow),
        <EmbedStoreError as FromSpec<anyhow::Error>>::from_spec(model)
            == EmbedStoreError::Embedding(model),
{
}

// ---------------------------------------------------------------------------
// Lemmas
// ---------------------------------------------------------------------------

/// Reading one batch is reading that batch.
proof fn lemma_reading_one(batch: BatchView)
    ensures
        read_documents(seq![batch]) == match documents_fault(batch) {
            Some(message) => Err(message),
            None => Ok(batch_documents(batch)),
        },
        read_distances(seq![batch]) == match distances_fault(batch) {
            Some(message) => Err(message),
            None => Ok(batch_distances(batch)),
        },
{
    assert(seq![batch].drop_last() =~= Seq::empty());
    assert(Seq::<DocumentView>::empty() + batch_documents(batch) =~= batch_documents(batch));
    assert(Seq::<(DocumentView, u32)>::empty() + batch_distances(batch) =~= batch_distances(batch));
    reveal_with_fuel(read_documents, 2);
    reveal_with_fuel(read_distances, 2);
}

/// The messages for the columns that documents are read from.
proof fn lemma_messages()
    ensures
        "id"@ + " column not found"@ == "id column not found"@,
        "text"@ + " column not found"@ == "text column not found"@,
        "_distance"@ + " column not found"@ == "_distance column not found"@,
        "Failed downcasting "@ + "id"@ + " column"@ == "Failed downcasting id column"@,
        "Failed downcasting "@ + "text"@ + " column"@ == "Failed downcasting text column"@,
        "Failed downcasting "@ + "_distance"@ + " column"@
            == "Failed downcasting _distance column"@,
{
    reveal_strlit("id");
    reveal_strlit("text");
    reveal_strlit("_distance");
    reveal_strlit(" column not found");
    reveal_strlit(" column");
    reveal_strlit("Failed downcasting ");
    reveal_strlit("id column not found");
    reveal_strlit("text column not found");
    reveal_strlit("_distance column not found");
    reveal_strlit("Failed downcasting id column");
    reveal_strlit("Failed downcasting text column");
    reveal_strlit("Failed downcasting _distance column");
    assert("id"@ + " column not found"@ =~= "id column not found"@);
    assert("text"@ + " column not found"@ =~= "text column not found"@);
    assert("_distance"@ + " column not found"@ =~= "_distance column not found"@);
    assert("Failed downcasting "@ + "id"@ + " column"@ =~= "Failed downcasting id column"@);
    assert("Failed downcasting "@ + "text"@ + " column"@ =~= "Failed downcasting text column"@);
    assert("Failed downcasting "@ + "_distance"@ + " column"@
        =~= "Failed downcasting _distance column"@);
}

} // verus!
