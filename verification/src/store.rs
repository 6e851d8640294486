//! The store: the embedding model, and the operations that are run with it.
use fastembed::TextEmbedding;
use vstd::prelude::*;

use crate::error::EmbedStoreError;
use crate::operation::{Operation, Reply, Request, Step};
#[allow(unused_imports)]
use crate::batches::embedding_views;
#[allow(unused_imports)]
use crate::columns::string_views;
#[allow(unused_imports)]
use crate::error::ErrorView;
#[allow(unused_imports)]
use crate::operation::{
    awaits, next, start_add, start_create_index, start_delete, start_get, start_get_all,
    start_open, start_record_count, start_search, start_update, OperationView, ReplyView,
    RequestView, StepView,
};
#[allow(unused_imports)]
use crate::query::{filter_view, limit_or, SEARCH_LIMIT};

verus! {

/// `fastembed::TextEmbedding`: a loaded embedding model, never looked into.
#[verifier::external_type_specification]
#[verifier::external_body]
pub struct ExTextEmbedding(TextEmbedding);

/// This may be what a model makes of the documents: their embeddings, or the error
/// that it fails with. A model need not compute the same numbers twice, nor on two
/// machines.
pub uninterp spec fn may_embed(
    model: TextEmbedding,
    documents: Seq<Seq<char>>,
    embeddings: Result<Seq<Seq<u32>>, anyhow::Error>,
) -> bool;

/// Computes embeddings with `fastembed::TextEmbedding::embed`, in batches of the
/// default size.
///
/// Taken for granted: nothing but that this is what the model makes of these
/// documents. How many embeddings there are, and of which size, is up to the model
/// file; so is whether the model runs through on a document at all.
#[verifier::external_body]
fn embed(model: &mut TextEmbedding, documents: Vec<String>) -> (embeddings: Result<
    Vec<Vec<u32>>,
    anyhow::Error,
>)
    ensures
        may_embed(
            *old(model),
            string_views(documents@),
            match embeddings {
                Ok(e) => Ok(embedding_views(e@)),
                Err(e) => Err(e),
            },
        ),
{
    let embeddings = model.embed(documents, None)?;
    let as_bits =
        |embedding: fastembed::Embedding| embedding.into_iter().map(|x| x.to_bits()).collect();
    Ok(embeddings.into_iter().map(as_bits).collect())
}

/// A store of documents and their embeddings.
pub struct EmbedStore {
    embedding_model: TextEmbedding,
}

/// The reply is what the model may make of the documents.
pub open spec fn embedding_reply(
    model: TextEmbedding,
    documents: Seq<Seq<char>>,
    reply: ReplyView,
) -> bool {
    match reply {
        ReplyView::Embedded(embeddings) => may_embed(model, documents, Ok(embeddings)),
        ReplyView::NotEmbedded(e) => may_embed(model, documents, Err(e)),
        _ => false,
    }
}

/// An operation that waits for the embeddings of the documents may go on so.
pub open spec fn embedded_step(
    model: TextEmbedding,
    documents: Seq<Seq<char>>,
    operation: OperationView,
    step: StepView,
) -> bool {
    exists|reply: ReplyView| #[trigger]
        embedding_reply(model, documents, reply) && next(operation, reply, step)
}

/// An operation goes from one step to another by letting the model do the work,
/// where the first step asks for embeddings. It stays where it is where not.
pub open spec fn embeds_to(model: TextEmbedding, from: StepView, to: StepView) -> bool {
    match from {
        StepView::Ask { request: RequestView::Embed { documents }, operation } => embedded_step(
            model,
            documents,
            operation,
            to,
        ),
        _ => to == from,
    }
}

/// An operation goes on with a reply, and by letting the model do the work if
/// embeddings are what it asks for then.
pub open spec fn resumes_to(
    model: TextEmbedding,
    operation: OperationView,
    reply: ReplyView,
    step: StepView,
) -> bool {
    exists|between: StepView| #[trigger]
        next(operation, reply, between) && embeds_to(model, between, step)
}

impl EmbedStore {
    /// The model of the store.
    pub closed spec fn model(&self) -> TextEmbedding {
        self.embedding_model
    }

    /// Makes a store with a model, and starts to open it.
    pub fn new(embedding_model: TextEmbedding) -> (opening: (EmbedStore, Step))
        ensures
            opening.0.model() == embedding_model,
            opening.1@ == start_open(),
    {
        (EmbedStore { embedding_model }, Operation::open())
    }

    /// Adds documents, each with an identifier and a text.
    pub fn add(&mut self, alt_ids: Vec<String>, text: Vec<String>) -> (step: Step)
        ensures
            embeds_to(
                old(self).model(),
                start_add(string_views(alt_ids@), string_views(text@)),
                step@,
            ),
            match step@ {
                StepView::Ask { request, operation } => {
                    &&& request is ReadSchema
                    &&& operation matches OperationView::ReadingSchema { embeddings, ids, text: t }
                    &&& ids == string_views(alt_ids@)
                    &&& t == string_views(text@)
                    &&& may_embed(old(self).model(), string_views(text@), Ok(embeddings))
                },
                StepView::Finish(end) => {
                    &&& end matches Err(ErrorView::Embedding(e))
                    &&& may_embed(old(self).model(), string_views(text@), Err(e))
                },
                StepView::Broken(_) => exists|embeddings: Seq<Seq<u32>>| #[trigger]
                    may_embed(old(self).model(), string_views(text@), Ok(embeddings)) && (
                    embeddings.len() == 0 || embeddings[0].len() != 384),
            },
    {
        self.embed_for(Operation::add(alt_ids, text))
    }

    /// Counts the documents.
    pub fn record_count(&self) -> (step: Step)
        ensures
            step@ == start_record_count(),
    {
        Operation::record_count()
    }

    /// Searches for the documents that are nearest to a text, among those that the
    /// filter lets through.
    pub fn search(&mut self, search_text: &str, filter: Option<&str>, limit: Option<usize>) -> (step:
        Step)
        ensures
            embeds_to(
                old(self).model(),
                start_search(search_text@, filter_view(filter), limit_or(limit, SEARCH_LIMIT)),
                step@,
            ),
            match step@ {
                StepView::Ask { request, operation } => {
                    &&& request matches RequestView::RunQuery { query }
                    &&& exists|embeddings: Seq<Seq<u32>>| #[trigger]
                        may_embed(old(self).model(), seq![search_text@], Ok(embeddings))
                            && query.vector == Some(embeddings.flatten())
                    &&& match filter {
                        Some(clause) => query.filter == Some(clause@),
                        None => query.filter is None,
                    }
                    &&& match limit {
                        Some(n) => query.limit == n,
                        None => query.limit == 25,
                    }
                    &&& operation is Searching
                },
                StepView::Finish(end) => {
                    &&& end matches Err(ErrorView::Embedding(e))
                    &&& may_embed(old(self).model(), seq![search_text@], Err(e))
                },
                StepView::Broken(_) => false,
            },
    {
        self.embed_for(Operation::search(search_text, filter, limit))
    }

    /// Looks up a document by its identifier.
    pub fn get(&self, id: &str) -> (step: Step)
        ensures
            step@ == start_get(id@),
    {
        Operation::get(id)
    }

    /// Lists the documents.
    pub fn get_all(&self) -> (step: Step)
        ensures
            step@ == start_get_all(),
    {
        Operation::get_all()
    }

    /// Deletes documents by their identifiers.
    pub fn delete(&self, ids: &Vec<String>) -> (step: Step)
        ensures
            step@ == start_delete(string_views(ids@)),
    {
        Operation::delete(ids)
    }

    /// Replaces the text of a document.
    pub fn update(&self, id: &str, text: &str) -> (step: Step)
        ensures
            step@ == start_update(id@, text@),
    {
        Operation::update(id, text)
    }

    /// Creates an index on the embeddings.
    pub fn create_index(&self) -> (step: Step)
        ensures
            step@ == start_create_index(),
    {
        Operation::create_index()
    }

    /// Goes on with an operation, and lets the model do its part.
    pub fn resume(&mut self, operation: Operation, reply: Reply) -> (step: Step)
        requires
            awaits(operation@, reply@),
        ensures
            resumes_to(old(self).model(), operation@, reply@, step@),
            exists|between: StepView| #[trigger]
                next(operation@, reply@, between) && match between {
                    StepView::Ask { request: RequestView::Embed { documents }, operation: waiting } =>
                        embedded_step(old(self).model(), documents, waiting, step@),
                    _ => step@ == between,
                },
    {
        let between = operation.advance(reply);
        assert(next(operation@, reply@, between@));
        self.embed_for(between)
    }

    /// Computes the embeddings of documents.
    pub fn create_embeddings(&mut self, documents: Vec<String>) -> (embeddings: Result<
        Vec<Vec<u32>>,
        EmbedStoreError,
    >)
        ensures
            match embeddings {
                Ok(e) => may_embed(
                    old(self).model(),
                    string_views(documents@),
                    Ok(embedding_views(e@)),
                ),
                Err(e) => e matches EmbedStoreError::Embedding(cause) && may_embed(
                    old(self).model(),
                    string_views(documents@),
                    Err(cause),
                ),
            },
    {
        match embed(&mut self.embedding_model, documents) {
            Ok(embeddings) => Ok(embeddings),
            Err(e) => Err(EmbedStoreError::from(e)),
        }
    }

    /// Lets the model compute the embeddings that a step asks for, if it asks for
    /// any.
    fn embed_for(&mut self, step: Step) -> (embedded: Step)
        requires
            step@ matches StepView::Ask { request: RequestView::Embed { .. }, operation } ==> {
                ||| operation is EmbeddingDocuments
                ||| operation is EmbeddingQuery
            },
        ensures
            embeds_to(old(self).model(), step@, embedded@),
    {
        match step {
            Step::Ask { request: Request::Embed { documents }, operation } => {
                let ghost texts = string_views(documents@);
                match self.create_embeddings(documents) {
                    Ok(embeddings) => {
                        let reply = Reply::Embedded(embeddings);
                        assert(embedding_reply(old(self).model(), texts, reply@));
                        operation.advance(reply)
                    },
                    Err(e) => {
                        proof {
                            let reply = ReplyView::NotEmbedded(e->Embedding_0);
                            assert(embedding_reply(old(self).model(), texts, reply));
                        }
                        Step::Finish(Err(e))
                    },
                }
            },
            other => other,
        }
    }
}

} // verus!
