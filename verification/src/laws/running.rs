//! How operations end, and how a store runs them.
//!
//! These laws are about a database that does what it is asked to.
use vstd::prelude::*;
#[allow(unused_imports)]
use vstd::utf8::encode_utf8;

#[allow(unused_imports)]
use crate::batches::{read_distances, table_schema};
#[allow(unused_imports)]
use crate::columns::total_bytes;
use crate::database::{Run, StoreRun};
#[allow(unused_imports)]
use crate::database::{is_failure, is_made_by, is_unquoted, other_rows, serves, TableView};
#[allow(unused_imports)]
use crate::document::DocumentView;
#[allow(unused_imports)]
use crate::error::ErrorView;
#[allow(unused_imports)]
use crate::laws::{
    answers, documents_of, is_answerable, law_adding_adds_rows, law_created_table_takes_documents,
    law_embeddings_of_one_size_are_kept, law_later_requests_are_answerable,
    law_store_embeds_by_itself, law_updating_replaces_rows, names_document_columns,
};
#[allow(unused_imports)]
use crate::operation::{
    awaits, next, start_add, start_create_index, start_delete, start_get, start_get_all,
    start_open, start_record_count, start_search, start_update, OperationView, OutcomeView,
    ReplyView, RequestView, StepView,
};
#[allow(unused_imports)]
use crate::store::{embedded_step, embedding_reply, embeds_to};

verus! {

// ---------------------------------------------------------------------------
// Operations succeed when the database does
// ---------------------------------------------------------------------------

/// Listing succeeds unless the database fails.
pub proof fn law_listing_succeeds(run: Run)
    requires
        run.runs(start_get_all()),
        run.is_unfailing(),
    ensures
        run.succeeds(),
        run.after() == run.before(),
        run.end() matches StepView::Finish(Ok(OutcomeView::Listed(documents, total))) && {
            &&& total == run.before().rows.len()
            &&& total <= 1000 ==> documents.to_multiset() == run.before().rows
            &&& total > 1000 ==> documents.len() == 1000 && documents.to_multiset().subset_of(
                run.before().rows,
            )
        },
{
    lemma_two_replies(run);
    assert(!is_failure(run.replies[0]));
    assert(!is_failure(run.replies[1]));
}

/// Deleting succeeds unless the database fails, whatever is deleted.
pub proof fn law_deleting_succeeds(run: Run, ids: Seq<Seq<char>>)
    requires
        run.runs(start_delete(ids)),
        run.is_unfailing(),
    ensures
        run.end() == StepView::Finish(Ok(OutcomeView::Done)),
{
    lemma_two_replies(run);
    assert(!is_failure(run.replies[0]));
}

/// Creating the index succeeds unless the database fails, and changes no row.
pub proof fn law_indexing_succeeds(run: Run)
    requires
        run.runs(start_create_index()),
        run.is_unfailing(),
    ensures
        run.end() == StepView::Finish(Ok(OutcomeView::Done)),
        run.after() == run.before(),
{
    lemma_two_replies(run);
    assert(!is_failure(run.replies[0]));
}

/// Adding documents to a table that the store created succeeds unless the database or
/// the model fails, if the model returns one embedding of the right size for each text
/// and there is one identifier for each.
pub proof fn law_adding_succeeds(
    run: Run,
    ids: Seq<Seq<char>>,
    text: Seq<Seq<char>>,
    embeddings: Seq<Seq<u32>>,
)
    requires
        run.runs(start_add(ids, text)),
        run.is_unfailing(),
        run.before().schema == table_schema(384),
        run.replies[0] == ReplyView::Embedded(embeddings),
        embeddings.len() > 0,
        text.len() == embeddings.len(),
        ids.len() == embeddings.len(),
        forall|i: int| 0 <= i < embeddings.len() ==> #[trigger] embeddings[i].len() == 384,
        total_bytes(text) <= i32::MAX,
        total_bytes(ids) <= i32::MAX,
    ensures
        run.end() == StepView::Finish(Ok(OutcomeView::Done)),
        run.after().rows == run.before().rows.add(documents_of(ids, text).to_multiset()),
{
    lemma_three_replies_from(run, 0);
    assert(embeddings[0].len() == 384);
    law_embeddings_of_one_size_are_kept(table_schema(384), embeddings, text, ids, 0);
    law_created_table_takes_documents(384, embeddings, text, ids);
    assert(!is_failure(run.replies[1]));
    assert(!is_failure(run.replies[2]));
    law_adding_adds_rows(run, ids, text);
}

/// Replacing a document in a table that the store created succeeds unless the database
/// or the model fails, if the model returns one embedding of the right size.
pub proof fn law_updating_succeeds(
    run: Run,
    id: Seq<char>,
    text: Seq<char>,
    embedding: Seq<u32>,
)
    requires
        run.runs(start_update(id, text)),
        run.is_unfailing(),
        run.before().schema == table_schema(384),
        run.replies[1] == ReplyView::Embedded(seq![embedding]),
        embedding.len() == 384,
        encode_utf8(text).len() <= i32::MAX,
        encode_utf8(id).len() <= i32::MAX,
    ensures
        run.end() == StepView::Finish(Ok(OutcomeView::Done)),
{
    lemma_two_replies(run);
    assert(!is_failure(run.replies[0]));
    lemma_three_replies_from(run, 1);
    reveal_with_fuel(total_bytes, 2);
    let embeddings = seq![embedding];
    law_embeddings_of_one_size_are_kept(table_schema(384), embeddings, seq![text], seq![id], 0);
    law_created_table_takes_documents(384, embeddings, seq![text], seq![id]);
    assert(!is_failure(run.replies[2]));
    assert(!is_failure(run.replies[3]));
}

/// Searching ends, unless the database or the model fails, with what is read from the
/// result of the query, and leaves the table as it is.
pub proof fn law_searching_ends_with_its_result(
    run: Run,
    search_text: Seq<char>,
    filter: Option<Seq<char>>,
    limit: nat,
)
    requires
        run.runs(start_search(search_text, filter, limit)),
        run.is_unfailing(),
    ensures
        run.after() == run.before(),
        run.replies.len() == 2 && run.replies[1] is Batches,
        match read_distances(run.replies[1]->Batches_0) {
            Ok(ranked) => run.end() == StepView::Finish(Ok(OutcomeView::Ranked(ranked))),
            Err(message) => run.end() == StepView::Finish(Err(ErrorView::Runtime(message))),
        },
{
    lemma_two_replies(run);
    assert(!is_failure(run.replies[0]));
    assert(!is_failure(run.replies[1]));
}

/// The operation waits for the replies that its request can have, and for no others.
pub open spec fn waits_for_answers(step: StepView) -> bool {
    step matches StepView::Ask { request, operation } ==> forall|reply: ReplyView| #[trigger]
        awaits(operation, reply) <==> answers(request, reply)
}

/// Operations wait for the replies that their requests can have, and for no others, from
/// their start to their end.
pub proof fn law_operations_wait_for_answers(
    ids: Seq<Seq<char>>,
    texts: Seq<Seq<char>>,
    id: Seq<char>,
    text: Seq<char>,
    filter: Option<Seq<char>>,
    limit: nat,
    operation: OperationView,
    reply: ReplyView,
    step: StepView,
)
    requires
        awaits(operation, reply),
        next(operation, reply, step),
    ensures
        waits_for_answers(start_open()),
        waits_for_answers(start_add(ids, texts)),
        waits_for_answers(start_record_count()),
        waits_for_answers(start_search(text, filter, limit)),
        waits_for_answers(start_get(id)),
        waits_for_answers(start_get_all()),
        waits_for_answers(start_delete(ids)),
        waits_for_answers(start_update(id, text)),
        waits_for_answers(start_create_index()),
        waits_for_answers(step),
{
}

// ---------------------------------------------------------------------------
// A store runs operations
// ---------------------------------------------------------------------------

/// What a store does is a run of the operation from its start to its end, in which one
/// reply after the other is answered by the next step and the embeddings are those that
/// the model makes of the documents that are asked for. No step is left out: the run
/// ends as the store does, and changes the table as the store does.
pub proof fn law_store_runs_the_operation(store: StoreRun, start: StepView) -> (run: Run)
    requires
        store.runs(start),
        is_answerable(start),
    ensures
        run.runs(start),
        run.end() == store.steps.last(),
        run.before() == store.tables[0],
        run.after() == store.tables.last(),
        run.embeds_with(store.models),
{
    lemma_run_to(store, start, 0, start)
}

/// A store that updates a document removes the rows with its identifier and adds one
/// with the new text, if it reports success.
pub proof fn law_store_replaces_rows(store: StoreRun, id: Seq<char>, text: Seq<char>)
    requires
        store.runs(start_update(id, text)),
        is_unquoted(id),
        names_document_columns(store.tables[0].schema.fields),
        store.steps.last() matches StepView::Finish(Ok(_)),
    ensures
        store.tables.last().rows == other_rows(store.tables[0].rows, id).insert(
            DocumentView { id, text },
        ),
{
    let run = law_store_runs_the_operation(store, start_update(id, text));
    law_updating_replaces_rows(run, id, text);
}

/// A store that adds documents adds a row for each of them, if it reports success.
pub proof fn law_store_adds_rows(store: StoreRun, ids: Seq<Seq<char>>, text: Seq<Seq<char>>)
    requires
        store.runs(start_add(ids, text)),
        names_document_columns(store.tables[0].schema.fields),
        store.steps.last() matches StepView::Finish(Ok(_)),
    ensures
        store.tables.last().rows == store.tables[0].rows.add(
            documents_of(ids, text).to_multiset(),
        ),
{
    let run = law_store_runs_the_operation(store, start_add(ids, text));
    law_adding_adds_rows(run, ids, text);
}

// ---------------------------------------------------------------------------
// Lemmas
// ---------------------------------------------------------------------------

/// The first two replies of a run, if there are as many.
proof fn lemma_two_replies(run: Run)
    requires
        run.is_complete(),
    ensures
        run.replies.len() > 0 ==> run.goes_on(0),
        run.replies.len() > 1 ==> run.goes_on(1),
        run.replies.len() > 2 ==> run.goes_on(2),
{
}

/// Three replies of a run from some step on, if there are as many.
proof fn lemma_three_replies_from(run: Run, at: int)
    requires
        run.is_complete(),
        0 <= at,
    ensures
        run.replies.len() > at ==> run.goes_on(at),
        run.replies.len() > at + 1 ==> run.goes_on(at + 1),
        run.replies.len() > at + 2 ==> run.goes_on(at + 2),
        run.replies.len() > at + 3 ==> run.goes_on(at + 3),
{
}

/// A run with one more step before it.
proof fn lemma_run_from(
    step: StepView,
    reply: ReplyView,
    table: TableView,
    rest: Run,
    models: Seq<fastembed::TextEmbedding>,
) -> (run: Run)
    requires
        rest.is_complete(),
        rest.embeds_with(models),
        step is Ask,
        awaits(step->operation, reply),
        next(step->operation, reply, rest.steps[0]),
        is_failure(reply) || serves(table, step->request, reply, rest.tables[0]),
        step->request matches RequestView::Embed { documents } ==> is_made_by(
            models,
            documents,
            reply,
        ),
    ensures
        run.runs(step),
        run.embeds_with(models),
        run.end() == rest.end(),
        run.before() == table,
        run.after() == rest.after(),
{
    let run = Run {
        steps: seq![step] + rest.steps,
        replies: seq![reply] + rest.replies,
        tables: seq![table] + rest.tables,
    };
    assert forall|i: int| 0 <= i < run.replies.len() implies #[trigger] run.goes_on(i) by {
        if i > 0 {
            assert(rest.goes_on(i - 1));
        }
    }
    assert forall|i: int| 0 <= i < run.replies.len() implies ((#[trigger] run.steps[i]) matches
        StepView::Ask { request: RequestView::Embed { documents }, .. } ==> is_made_by(
        models,
        documents,
        run.replies[i],
    )) by {
        if i > 0 {
            assert(rest.steps[i - 1] == run.steps[i]);
        }
    }
    run
}

/// The run of the operation from the step that the store came to its own step from.
proof fn lemma_run_to(store: StoreRun, start: StepView, at: int, from: StepView) -> (run: Run)
    requires
        store.runs(start),
        0 <= at <= store.replies.len(),
        is_answerable(from),
        embeds_to(store.models[at], from, store.steps[at]),
    ensures
        run.runs(from),
        run.embeds_with(store.models),
        run.end() == store.steps.last(),
        run.before() == store.tables[at],
        run.after() == store.tables.last(),
    decreases store.replies.len() - at, 1int,
{
    law_store_embeds_by_itself(store.models[at], from, store.steps[at]);
    let rest = lemma_run_on(store, start, at);
    if let StepView::Ask { request: RequestView::Embed { documents }, operation } = from {
        let model = store.models[at];
        assert(embedded_step(model, documents, operation, store.steps[at]));
        let reply = choose|reply: ReplyView| #[trigger]
            embedding_reply(model, documents, reply) && next(operation, reply, store.steps[at]);
        assert(answers(RequestView::Embed { documents }, reply));
        assert(is_made_by(store.models, documents, reply));
        lemma_run_from(from, reply, store.tables[at], rest, store.models)
    } else {
        rest
    }
}

/// The run of the operation from a step of the store on.
proof fn lemma_run_on(store: StoreRun, start: StepView, at: int) -> (run: Run)
    requires
        store.runs(start),
        0 <= at <= store.replies.len(),
        is_answerable(store.steps[at]),
        !(store.steps[at] matches StepView::Ask { request: RequestView::Embed { .. }, .. }),
    ensures
        run.runs(store.steps[at]),
        run.embeds_with(store.models),
        run.end() == store.steps.last(),
        run.before() == store.tables[at],
        run.after() == store.tables.last(),
    decreases store.replies.len() - at, 0int,
{
    let step = store.steps[at];
    if at == store.replies.len() {
        Run { steps: seq![step], replies: seq![], tables: seq![store.tables[at]] }
    } else {
        assert(store.goes_on(at));
        let reply = store.replies[at];
        let between = choose|between: StepView| #[trigger]
            next(step->operation, reply, between) && embeds_to(
                store.models[at + 1],
                between,
                store.steps[at + 1],
            );
        law_later_requests_are_answerable(step->operation, reply, between);
        let rest = lemma_run_to(store, start, at + 1, between);
        lemma_run_from(step, reply, store.tables[at], rest, store.models)
    }
}

} // verus!
