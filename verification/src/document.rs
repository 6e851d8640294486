//! A stored text and the identifier it is stored under.
use vstd::prelude::*;

verus! {

/// A text with its identifier.
#[derive(Debug, Clone)]
pub struct Document {
    pub id: String,
    pub text: String,
}

/// A document as two sequences of characters.
#[verifier::ext_equal]
pub struct DocumentView {
    pub id: Seq<char>,
    pub text: Seq<char>,
}

impl View for Document {
    type V = DocumentView;

    open spec fn view(&self) -> DocumentView {
        DocumentView { id: self.id@, text: self.text@ }
    }
}

/// Two documents are the same document when their identifiers agree, whatever
/// their texts are.
impl PartialEq for Document {
    fn eq(&self, other: &Self) -> (same: bool) {
        self.id == other.id
    }
}

impl vstd::std_specs::cmp::PartialEqSpecImpl for Document {
    open spec fn obeys_eq_spec() -> bool {
        true
    }

    open spec fn eq_spec(&self, other: &Self) -> bool {
        self.id@ == other.id@
    }
}

/// The views of a sequence of documents.
pub open spec fn document_views(documents: Seq<Document>) -> Seq<DocumentView> {
    documents.map_values(|document: Document| document@)
}

} // verus!
