//! A database that does what it is asked to, as a model.
//!
//! The store takes the replies of a database as they come, and claims nothing of
//! what is in a table. What an operation leaves behind in a table can only be said
//! of a database that does what the requests ask for, and that is what this model
//! describes. No function of the store relies on it: laws that do say so, by taking
//! a [`Run`] on such a database.
#[allow(unused_imports)]
use fastembed::TextEmbedding;
use vstd::multiset::Multiset;
use vstd::prelude::*;

#[allow(unused_imports)]
use crate::batches::read_documents;
#[allow(unused_imports)]
use crate::columns::SchemaView;
#[allow(unused_imports)]
use crate::document::DocumentView;
#[allow(unused_imports)]
use crate::operation::{awaits, next, ReplyView, RequestView, StepView};
#[allow(unused_imports)]
use crate::query::QueryView;

#[allow(unused_imports)]
use crate::store::{embeds_to, may_embed, resumes_to};

verus! {

/// A table: its schema, and the documents in its rows. The rows are in no order, and
/// two of them may hold the same document.
#[verifier::ext_equal]
pub struct TableView {
    pub schema: SchemaView,
    pub rows: Multiset<DocumentView>,
}

/// The rows with the given identifier.
pub open spec fn rows_named(rows: Multiset<DocumentView>, id: Seq<char>) -> Multiset<DocumentView> {
    rows.filter(|document: DocumentView| document.id == id)
}

/// The rows with any other identifier.
pub open spec fn other_rows(rows: Multiset<DocumentView>, id: Seq<char>) -> Multiset<DocumentView> {
    rows.filter(|document: DocumentView| document.id != id)
}

/// An identifier that can stand between quotes as it is.
pub open spec fn is_unquoted(id: Seq<char>) -> bool {
    forall|i: int| 0 <= i < id.len() ==> #[trigger] id[i] != '\''
}

/// The documents are the selected rows, or as many of them as the limit allows.
pub open spec fn selects(
    selected: Multiset<DocumentView>,
    limit: nat,
    documents: Seq<DocumentView>,
) -> bool {
    if selected.len() <= limit {
        documents.to_multiset() == selected
    } else {
        documents.len() == limit && documents.to_multiset().subset_of(selected)
    }
}

/// The documents are a result of the query. A query without a filter selects all rows,
/// and one that says `id = '...'` selects the rows with the identifier in the quotes.
/// What other queries select is left open.
pub open spec fn is_result(
    rows: Multiset<DocumentView>,
    query: QueryView,
    documents: Seq<DocumentView>,
) -> bool {
    query.vector is None ==> {
        &&& query.filter is None ==> selects(rows, query.limit, documents)
        &&& forall|id: Seq<char>| #[trigger]
            is_unquoted(id) && query.filter == Some("id = '"@ + id + "'"@) ==> selects(
                rows_named(rows, id),
                query.limit,
                documents,
            )
    }
}

/// The table does what the request asks for, and replies so. A predicate that says
/// `id in ('...')` removes the rows with the identifier in the quotes, and what others
/// remove is left open.
pub open spec fn serves(
    before: TableView,
    request: RequestView,
    reply: ReplyView,
    after: TableView,
) -> bool {
    match request {
        RequestView::ReadSchema => reply == ReplyView::Schema(before.schema) && after == before,
        RequestView::CountRows => reply == ReplyView::Count(before.rows.len()) && after == before,
        RequestView::Append { batches, .. } => {
            &&& reply is Done
            &&& after.schema == before.schema
            &&& read_documents(batches) matches Ok(documents) ==> after.rows == before.rows.add(
                documents.to_multiset(),
            )
        },
        RequestView::RunQuery { query } => {
            &&& after == before
            &&& reply matches ReplyView::Batches(batches)
            &&& read_documents(batches) matches Ok(documents)
            &&& is_result(before.rows, query, documents)
        },
        RequestView::DeleteRows { predicate } => {
            &&& reply is Done
            &&& after.schema == before.schema
            &&& forall|id: Seq<char>| #[trigger]
                is_unquoted(id) && predicate == "id in ('"@ + id + "')"@ ==> after.rows
                    == other_rows(before.rows, id)
        },
        _ => after == before,
    }
}

/// The reply tells of a failure.
pub open spec fn is_failure(reply: ReplyView) -> bool {
    reply is Failed || reply is Interrupted || reply is NotEmbedded
}

/// An operation from its start to its end: its steps, the replies between them, and
/// the table at each step.
pub struct Run {
    pub steps: Seq<StepView>,
    pub replies: Seq<ReplyView>,
    pub tables: Seq<TableView>,
}

impl Run {
    /// Each step but the last asks for work and goes on with the reply. Unless it
    /// fails, the table does that work.
    pub open spec fn goes_on(self, i: int) -> bool {
        &&& self.steps[i] is Ask
        &&& awaits(self.steps[i]->operation, self.replies[i])
        &&& next(self.steps[i]->operation, self.replies[i], self.steps[i + 1])
        &&& is_failure(self.replies[i]) || serves(
            self.tables[i],
            self.steps[i]->request,
            self.replies[i],
            self.tables[i + 1],
        )
    }

    /// The operation runs from its start to its end.
    pub open spec fn is_complete(self) -> bool {
        &&& self.steps.len() == self.replies.len() + 1
        &&& self.tables.len() == self.replies.len() + 1
        &&& forall|i: int| 0 <= i < self.replies.len() ==> #[trigger] self.goes_on(i)
        &&& !(self.steps.last() is Ask)
    }

    /// A complete run of the operation that starts with this step.
    pub open spec fn runs(self, start: StepView) -> bool {
        self.is_complete() && self.steps[0] == start
    }

    /// No reply tells of a failure.
    pub open spec fn is_unfailing(self) -> bool {
        forall|i: int| 0 <= i < self.replies.len() ==> !is_failure(#[trigger] self.replies[i])
    }

    /// Where embeddings are asked for, one of the models computes them.
    pub open spec fn embeds_with(self, models: Seq<TextEmbedding>) -> bool {
        forall|i: int|
            0 <= i < self.replies.len() ==> ((#[trigger] self.steps[i]) matches StepView::Ask {
                request: RequestView::Embed { documents },
                ..
            } ==> is_made_by(models, documents, self.replies[i]))
    }

    /// How the operation ended.
    pub open spec fn end(self) -> StepView {
        self.steps.last()
    }

    /// The operation ended well.
    pub open spec fn succeeds(self) -> bool {
        self.end() matches StepView::Finish(Ok(_))
    }

    /// The table at the start.
    pub open spec fn before(self) -> TableView {
        self.tables[0]
    }

    /// The table at the end.
    pub open spec fn after(self) -> TableView {
        self.tables.last()
    }
}

/// The reply is what one of the models may make of the documents.
pub open spec fn is_made_by(
    models: Seq<TextEmbedding>,
    documents: Seq<Seq<char>>,
    reply: ReplyView,
) -> bool {
    exists|k: int|
        0 <= k < models.len() && match reply {
            ReplyView::Embedded(e) => may_embed(#[trigger] models[k], documents, Ok(e)),
            ReplyView::NotEmbedded(e) => may_embed(models[k], documents, Err(e)),
            _ => false,
        }
}

/// An operation of a store from its start to its end: the steps that the store
/// returned, its model at each of them, the replies between them, and the table at each
/// step.
pub struct StoreRun {
    pub steps: Seq<StepView>,
    pub models: Seq<TextEmbedding>,
    pub replies: Seq<ReplyView>,
    pub tables: Seq<TableView>,
}

impl StoreRun {
    /// Each step but the last asks for work, and the store goes on with the reply.
    /// Unless it fails, the table does that work.
    pub open spec fn goes_on(self, i: int) -> bool {
        &&& self.steps[i] is Ask
        &&& awaits(self.steps[i]->operation, self.replies[i])
        &&& resumes_to(
            self.models[i + 1],
            self.steps[i]->operation,
            self.replies[i],
            self.steps[i + 1],
        )
        &&& is_failure(self.replies[i]) || serves(
            self.tables[i],
            self.steps[i]->request,
            self.replies[i],
            self.tables[i + 1],
        )
    }

    /// A complete run of the operation that starts with this step.
    pub open spec fn runs(self, start: StepView) -> bool {
        &&& self.steps.len() == self.replies.len() + 1
        &&& self.models.len() == self.replies.len() + 1
        &&& self.tables.len() == self.replies.len() + 1
        &&& embeds_to(self.models[0], start, self.steps[0])
        &&& forall|i: int| 0 <= i < self.replies.len() ==> #[trigger] self.goes_on(i)
        &&& !(self.steps.last() is Ask)
    }
}

/// The names are those of the tables of a database.
pub open spec fn lists(tables: Map<Seq<char>, TableView>, names: Seq<Seq<char>>) -> bool {
    forall|name: Seq<char>| #[trigger] names.contains(name) <==> tables.contains_key(name)
}

/// The database opens the table that is asked for, or creates it empty.
pub open spec fn provides(
    before: Map<Seq<char>, TableView>,
    request: RequestView,
    after: Map<Seq<char>, TableView>,
) -> bool {
    match request {
        RequestView::OpenTable { name } => before.contains_key(name) && after == before,
        RequestView::CreateTable { name, schema } => {
            &&& !before.contains_key(name)
            &&& after == before.insert(name, TableView { schema, rows: Multiset::empty() })
        },
        _ => false,
    }
}

} // verus!
