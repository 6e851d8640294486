//! What can go wrong in the store.
use arrow_schema::ArrowError;
use vstd::prelude::*;

verus! {

/// `arrow_schema::ArrowError`, carried through and never looked into.
#[verifier::external_type_specification]
#[verifier::external_body]
pub struct ExArrowError(ArrowError);

/// `anyhow::Error`, carried through and never looked into.
#[verifier::external_type_specification]
#[verifier::external_body]
pub struct ExAnyhowError(anyhow::Error);

/// A failure on the side of the database.
#[derive(Debug)]
pub enum DatabaseError {
    /// The database refused the request, with this explanation.
    Refused { message: String },
    /// The answer broke off while it was being read, with this explanation.
    Runtime { message: String },
}

/// A failure of the store.
#[derive(Debug)]
pub enum EmbedStoreError {
    /// The database failed.
    VectorDb(DatabaseError),
    /// Arrow rejected some data.
    Arrow(ArrowError),
    /// The embedding model failed.
    Embedding(anyhow::Error),
    /// The data was not what the store expected.
    Runtime(String),
}

/// A database failure with its explanation as a sequence of characters.
pub enum DatabaseErrorView {
    Refused { message: Seq<char> },
    Runtime { message: Seq<char> },
}

/// A failure of the store with its texts as sequences of characters.
pub enum ErrorView {
    VectorDb(DatabaseErrorView),
    Arrow(ArrowError),
    Embedding(anyhow::Error),
    Runtime(Seq<char>),
}

impl View for DatabaseError {
    type V = DatabaseErrorView;

    open spec fn view(&self) -> DatabaseErrorView {
        match self {
            DatabaseError::Refused { message } => DatabaseErrorView::Refused { message: message@ },
            DatabaseError::Runtime { message } => DatabaseErrorView::Runtime { message: message@ },
        }
    }
}

impl View for EmbedStoreError {
    type V = ErrorView;

    open spec fn view(&self) -> ErrorView {
        match self {
            EmbedStoreError::VectorDb(e) => ErrorView::VectorDb(e@),
            EmbedStoreError::Arrow(e) => ErrorView::Arrow(*e),
            EmbedStoreError::Embedding(e) => ErrorView::Embedding(*e),
            EmbedStoreError::Runtime(message) => ErrorView::Runtime(message@),
        }
    }
}

/// This may be the text that an Arrow error is shown as. Where it holds an error from
/// elsewhere, that one has its own say in it.
pub uninterp spec fn may_show_arrow_error(error: ArrowError, text: Seq<char>) -> bool;

/// Shows an error with `to_string` of `arrow_schema::ArrowError`.
///
/// Taken for granted: nothing but that this is a text that the error is shown as.
#[verifier::external_body]
fn arrow_error_text(error: &ArrowError) -> (text: String)
    ensures
        may_show_arrow_error(*error, text@),
{
    error.to_string()
}

/// This may be the text that an error of the model is shown as, which is up to
/// whatever error is inside.
pub uninterp spec fn may_show_model_error(error: anyhow::Error, text: Seq<char>) -> bool;

/// Shows an error with `to_string` of `anyhow::Error`.
///
/// Taken for granted: nothing but that this is a text that the error is shown as.
#[verifier::external_body]
fn model_error_text(error: &anyhow::Error) -> (text: String)
    ensures
        may_show_model_error(*error, text@),
{
    error.to_string()
}

/// This may be the text of a failure: the message that the store or the database
/// gave, or what the error from elsewhere is shown as.
pub open spec fn may_have_text(error: ErrorView, text: Seq<char>) -> bool {
    match error {
        ErrorView::VectorDb(DatabaseErrorView::Refused { message }) => text == message,
        ErrorView::VectorDb(DatabaseErrorView::Runtime { message }) => text == message,
        ErrorView::Arrow(e) => may_show_arrow_error(e, text),
        ErrorView::Embedding(e) => may_show_model_error(e, text),
        ErrorView::Runtime(message) => text == message,
    }
}

impl EmbedStoreError {
    /// The text of the failure.
    pub fn message(&self) -> (text: String)
        ensures
            may_have_text(self@, text@),
            match self {
                EmbedStoreError::VectorDb(DatabaseError::Refused { message }) => text@ == message@,
                EmbedStoreError::VectorDb(DatabaseError::Runtime { message }) => text@ == message@,
                EmbedStoreError::Arrow(e) => may_show_arrow_error(*e, text@),
                EmbedStoreError::Embedding(e) => may_show_model_error(*e, text@),
                EmbedStoreError::Runtime(message) => text@ == message@,
            },
    {
        match self {
            EmbedStoreError::VectorDb(DatabaseError::Refused { message }) => message.clone(),
            EmbedStoreError::VectorDb(DatabaseError::Runtime { message }) => message.clone(),
            EmbedStoreError::Arrow(e) => arrow_error_text(e),
            EmbedStoreError::Embedding(e) => model_error_text(e),
            EmbedStoreError::Runtime(message) => message.clone(),
        }
    }
}

impl From<DatabaseError> for EmbedStoreError {
    fn from(e: DatabaseError) -> (error: Self) {
        EmbedStoreError::VectorDb(e)
    }
}

impl vstd::std_specs::convert::FromSpecImpl<DatabaseError> for EmbedStoreError {
    open spec fn obeys_from_spec() -> bool {
        true
    }

    open spec fn from_spec(e: DatabaseError) -> Self {
        EmbedStoreError::VectorDb(e)
    }
}

impl From<ArrowError> for EmbedStoreError {
    fn from(e: ArrowError) -> (error: Self) {
        EmbedStoreError::Arrow(e)
    }
}

impl vstd::std_specs::convert::FromSpecImpl<ArrowError> for EmbedStoreError {
    open spec fn obeys_from_spec() -> bool {
        true
    }

    open spec fn from_spec(e: ArrowError) -> Self {
        EmbedStoreError::Arrow(e)
    }
}

impl From<anyhow::Error> for EmbedStoreError {
    fn from(e: anyhow::Error) -> (error: Self) {
        EmbedStoreError::Embedding(e)
    }
}

impl vstd::std_specs::convert::FromSpecImpl<anyhow::Error> for EmbedStoreError {
    open spec fn obeys_from_spec() -> bool {
        true
    }

    open spec fn from_spec(e: anyhow::Error) -> Self {
        EmbedStoreError::Embedding(e)
    }
}

} // verus!
