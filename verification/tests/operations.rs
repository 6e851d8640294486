use std::sync::Arc;

use arrow_array::{ArrayRef, Float32Array, RecordBatch, StringArray};
use arrow_schema::{DataType, Field, Schema};
use notebook::columns::TableBatch;
use notebook::error::DatabaseError;
use notebook::operation::{Fault, Operation, Outcome, Reply, Request, Step};
use notebook::{EmbedStore, EmbedStoreError};

fn strings(values: &[&str]) -> Vec<String> {
    values.iter().map(|v| v.to_string()).collect()
}

fn ask(step: Step) -> (Request, Operation) {
    match step {
        Step::Ask { request, operation } => (request, operation),
        other => panic!("the operation asks for nothing: {:?}", other),
    }
}

fn outcome(step: Step) -> Outcome {
    match step {
        Step::Finish(Ok(outcome)) => outcome,
        other => panic!("the operation did not succeed: {:?}", other),
    }
}

fn error(step: Step) -> EmbedStoreError {
    match step {
        Step::Finish(Err(error)) => error,
        other => panic!("the operation did not fail: {:?}", other),
    }
}

fn fault(step: Step) -> Fault {
    match step {
        Step::Broken(fault) => fault,
        other => panic!("the operation did not break: {:?}", other),
    }
}

fn refusal() -> Reply {
    Reply::Failed(DatabaseError::Refused { message: "no".to_string() })
}

fn assert_refused(step: Step) {
    match error(step) {
        EmbedStoreError::VectorDb(DatabaseError::Refused { message }) => assert_eq!(message, "no"),
        other => panic!("unexpected error {:?}", other),
    }
}

fn text_array(values: &[&str]) -> ArrayRef {
    Arc::new(StringArray::from(values.to_vec()))
}

fn batch(ids: &[&str], texts: &[&str]) -> TableBatch {
    let columns = vec![("id", text_array(ids)), ("text", text_array(texts))];
    TableBatch { batch: RecordBatch::try_from_iter(columns).unwrap() }
}

fn embedding(first: f32) -> Vec<u32> {
    let mut values = vec![0.0f32; 384];
    values[0] = first;
    values.into_iter().map(|v| v.to_bits()).collect()
}

#[test]
fn opening_connects_and_opens_an_existing_table() {
    let (request, operation) = ask(Operation::open());
    match request {
        Request::Connect { uri } => assert_eq!(uri, "../data/sample-lancedb"),
        other => panic!("unexpected request {:?}", other),
    }
    let (request, operation) = ask(operation.advance(Reply::Done));
    assert!(matches!(request, Request::ListTables));
    let tables = Reply::Tables(strings(&["other", "documents"]));
    let (request, operation) = ask(operation.advance(tables));
    match request {
        Request::OpenTable { name } => assert_eq!(name, "documents"),
        other => panic!("unexpected request {:?}", other),
    }
    assert!(matches!(outcome(operation.advance(Reply::Done)), Outcome::Opened));
}

#[test]
fn opening_creates_a_missing_table() {
    let (_, operation) = ask(Operation::open());
    let (_, operation) = ask(operation.advance(Reply::Done));
    let tables = Reply::Tables(strings(&["document", "documents2"]));
    let (request, operation) = ask(operation.advance(tables));
    match request {
        Request::CreateTable { name, schema } => {
            assert_eq!(name, "documents");
            assert_eq!(schema, EmbedStore::generate_schema(384));
        }
        other => panic!("unexpected request {:?}", other),
    }
    assert!(matches!(outcome(operation.advance(Reply::Done)), Outcome::Opened));
}

#[test]
fn empty_table_has_the_asked_for_dimensions() {
    match EmbedStore::create_empty_table("papers", 12) {
        Request::CreateTable { name, schema } => {
            assert_eq!(name, "papers");
            assert_eq!(schema, EmbedStore::generate_schema(12));
        }
        other => panic!("unexpected request {:?}", other),
    }
}

#[test]
fn adding_embeds_reads_the_schema_and_appends() {
    let (request, operation) =
        ask(Operation::add(strings(&["a", "b"]), strings(&["one", "two"])));
    match request {
        Request::Embed { documents } => assert_eq!(documents, strings(&["one", "two"])),
        other => panic!("unexpected request {:?}", other),
    }
    let embedded = Reply::Embedded(vec![embedding(1.0), embedding(2.0)]);
    let (request, operation) = ask(operation.advance(embedded));
    assert!(matches!(request, Request::ReadSchema));
    let table_schema = EmbedStore::generate_schema(384);
    let (request, operation) = ask(operation.advance(Reply::Schema(table_schema.clone())));
    match request {
        Request::Append { batches, schema } => {
            assert_eq!(schema, table_schema);
            let documents = EmbedStore::record_to_document(batches).unwrap();
            let read: Vec<(&str, &str)> =
                documents.iter().map(|d| (d.get_id(), d.get_content())).collect();
            assert_eq!(read, vec![("a", "one"), ("b", "two")]);
        }
        other => panic!("unexpected request {:?}", other),
    }
    assert!(matches!(outcome(operation.advance(Reply::Done)), Outcome::Done));
}

#[test]
fn adding_breaks_on_wrong_embeddings() {
    let start = || ask(Operation::add(strings(&["a"]), strings(&["one"]))).1;
    let none = start().advance(Reply::Embedded(vec![]));
    assert!(matches!(fault(none), Fault::NoEmbedding));
    let short = start().advance(Reply::Embedded(vec![vec![0; 383]]));
    assert!(matches!(fault(short), Fault::DimensionMismatch));
    let ragged = start().advance(Reply::Embedded(vec![embedding(1.0), vec![0; 10]]));
    let (_, operation) = ask(ragged);
    let schema = EmbedStore::generate_schema(384);
    let step = operation.advance(Reply::Schema(schema));
    assert!(matches!(fault(step), Fault::Unstorable));
}

#[test]
fn adding_breaks_on_a_foreign_schema() {
    let (_, operation) = ask(Operation::add(strings(&["a"]), strings(&["one"])));
    let (_, operation) = ask(operation.advance(Reply::Embedded(vec![embedding(1.0)])));
    let schema = Arc::new(Schema::new(vec![Field::new("id", DataType::Utf8, false)]));
    match fault(operation.advance(Reply::Schema(schema))) {
        Fault::RejectedBatch(e) => {
            let message = e.to_string();
            assert!(message.contains("number of columns(3)"), "{}", message);
        }
        other => panic!("unexpected fault {:?}", other),
    }
}

#[test]
fn adding_breaks_when_ids_and_texts_do_not_pair_up() {
    let (_, operation) = ask(Operation::add(strings(&["a", "b"]), strings(&["one"])));
    let (_, operation) = ask(operation.advance(Reply::Embedded(vec![embedding(1.0)])));
    let schema = EmbedStore::generate_schema(384);
    assert!(matches!(fault(operation.advance(Reply::Schema(schema))), Fault::RejectedBatch(_)));
}

#[test]
fn adding_fails_with_the_model() {
    let (_, operation) = ask(Operation::add(strings(&["a"]), strings(&["one"])));
    match error(operation.advance(Reply::NotEmbedded(anyhow::Error::msg("model is gone")))) {
        EmbedStoreError::Embedding(e) => assert_eq!(e.to_string(), "model is gone"),
        other => panic!("unexpected error {:?}", other),
    }
}

#[test]
fn counting_reports_the_number() {
    let (request, operation) = ask(Operation::record_count());
    assert!(matches!(request, Request::CountRows));
    match outcome(operation.advance(Reply::Count(17))) {
        Outcome::Count(count) => assert_eq!(count, 17),
        other => panic!("unexpected outcome {:?}", other),
    }
}

#[test]
fn searching_embeds_the_text_and_ranks_documents() {
    let (request, operation) = ask(Operation::search("cats", Some("id != 'x'"), None));
    match request {
        Request::Embed { documents } => assert_eq!(documents, strings(&["cats"])),
        other => panic!("unexpected request {:?}", other),
    }
    let (request, operation) = ask(operation.advance(Reply::Embedded(vec![vec![1, 2], vec![3]])));
    match request {
        Request::RunQuery { query } => {
            assert_eq!(query.vector, Some(vec![1, 2, 3]));
            assert_eq!(query.filter.as_deref(), Some("id != 'x'"));
            assert_eq!(query.limit, 25);
        }
        other => panic!("unexpected request {:?}", other),
    }
    let distances: ArrayRef = Arc::new(Float32Array::from(vec![0.5f32]));
    let columns = vec![
        ("id", text_array(&["a"])),
        ("text", text_array(&["one"])),
        ("_distance", distances),
    ];
    let result = TableBatch { batch: RecordBatch::try_from_iter(columns).unwrap() };
    match outcome(operation.advance(Reply::Batches(vec![result]))) {
        Outcome::Ranked(documents) => {
            assert_eq!(documents.len(), 1);
            assert_eq!(documents[0].0.get_id(), "a");
            assert_eq!(f32::from_bits(documents[0].1), 0.5);
        }
        other => panic!("unexpected outcome {:?}", other),
    }
}

#[test]
fn searching_keeps_a_given_limit() {
    let (_, operation) = ask(Operation::search("cats", None, Some(3)));
    let (request, _) = ask(operation.advance(Reply::Embedded(vec![])));
    match request {
        Request::RunQuery { query } => {
            assert_eq!(query.limit, 3);
            assert_eq!(query.vector, Some(vec![]));
            assert!(query.filter.is_none());
        }
        other => panic!("unexpected request {:?}", other),
    }
}

#[test]
fn searching_fails_without_distances() {
    let (_, operation) = ask(Operation::search("cats", None, None));
    let (_, operation) = ask(operation.advance(Reply::Embedded(vec![vec![1]])));
    let step = operation.advance(Reply::Batches(vec![batch(&["a"], &["one"])]));
    match error(step) {
        EmbedStoreError::Runtime(message) => assert_eq!(message, "_distance column not found"),
        other => panic!("unexpected error {:?}", other),
    }
}

#[test]
fn getting_queries_by_id() {
    let (request, operation) = ask(Operation::get("a1"));
    match request {
        Request::RunQuery { query } => {
            assert!(query.vector.is_none());
            assert_eq!(query.filter.as_deref(), Some("id = 'a1'"));
            assert_eq!(query.limit, 10);
        }
        other => panic!("unexpected request {:?}", other),
    }
    match outcome(operation.advance(Reply::Batches(vec![batch(&["a1"], &["one"])]))) {
        Outcome::Found(Some(document)) => {
            assert_eq!(document.get_id(), "a1");
            assert_eq!(document.get_content(), "one");
        }
        other => panic!("unexpected outcome {:?}", other),
    }
}

#[test]
fn getting_a_missing_document_finds_none() {
    let (_, operation) = ask(Operation::get("a1"));
    assert!(matches!(outcome(operation.advance(Reply::Batches(vec![]))), Outcome::Found(None)));
    let (_, operation) = ask(Operation::get("a1"));
    let empty = Reply::Batches(vec![batch(&[], &[])]);
    assert!(matches!(outcome(operation.advance(empty)), Outcome::Found(None)));
}

#[test]
fn getting_breaks_when_an_id_is_ambiguous() {
    let (_, operation) = ask(Operation::get("a"));
    let twice = Reply::Batches(vec![batch(&["a"], &["one"]), batch(&["a"], &["two"])]);
    assert!(matches!(fault(operation.advance(twice)), Fault::AmbiguousId));
}

#[test]
fn getting_finds_what_was_added() {
    let (_, operation) = ask(Operation::add(strings(&["n1"]), strings(&["hello"])));
    let (_, operation) = ask(operation.advance(Reply::Embedded(vec![embedding(1.0)])));
    let schema = EmbedStore::generate_schema(384);
    let (request, _) = ask(operation.advance(Reply::Schema(schema)));
    let written = match request {
        Request::Append { batches, .. } => batches,
        other => panic!("unexpected request {:?}", other),
    };
    let (_, operation) = ask(Operation::get("n1"));
    match outcome(operation.advance(Reply::Batches(written))) {
        Outcome::Found(Some(document)) => {
            assert_eq!((document.get_id(), document.get_content()), ("n1", "hello"));
        }
        other => panic!("unexpected outcome {:?}", other),
    }
}

#[test]
fn listing_counts_and_then_queries() {
    let (request, operation) = ask(Operation::get_all());
    assert!(matches!(request, Request::CountRows));
    let (request, operation) = ask(operation.advance(Reply::Count(2000)));
    match request {
        Request::RunQuery { query } => {
            assert!(query.vector.is_none());
            assert!(query.filter.is_none());
            assert_eq!(query.limit, 1000);
        }
        other => panic!("unexpected request {:?}", other),
    }
    match outcome(operation.advance(Reply::Batches(vec![batch(&["a", "b"], &["1", "2"])]))) {
        Outcome::Listed(documents, total) => {
            assert_eq!(documents.len(), 2);
            assert_eq!(documents[1].get_id(), "b");
            assert_eq!(total, 2000);
        }
        other => panic!("unexpected outcome {:?}", other),
    }
}

#[test]
fn deleting_is_one_request() {
    let (request, operation) = ask(Operation::delete(&strings(&["a", "b"])));
    match request {
        Request::DeleteRows { predicate } => assert_eq!(predicate, "id in ('a, b')"),
        other => panic!("unexpected request {:?}", other),
    }
    assert!(matches!(outcome(operation.advance(Reply::Done)), Outcome::Done));
}

#[test]
fn updating_deletes_and_then_adds() {
    let (request, operation) = ask(Operation::update("a", "new text"));
    match request {
        Request::DeleteRows { predicate } => assert_eq!(predicate, "id in ('a')"),
        other => panic!("unexpected request {:?}", other),
    }
    let (request, operation) = ask(operation.advance(Reply::Done));
    match request {
        Request::Embed { documents } => assert_eq!(documents, strings(&["new text"])),
        other => panic!("unexpected request {:?}", other),
    }
    match operation {
        Operation::EmbeddingDocuments { ids, text } => {
            assert_eq!(ids, strings(&["a"]));
            assert_eq!(text, strings(&["new text"]));
        }
        other => panic!("unexpected operation {:?}", other),
    }
}

#[test]
fn updated_document_reaches_the_table() {
    let (_, operation) = ask(Operation::update("a", "new text"));
    let (_, operation) = ask(operation.advance(Reply::Done));
    let (_, operation) = ask(operation.advance(Reply::Embedded(vec![embedding(1.0)])));
    let schema = EmbedStore::generate_schema(384);
    let (request, operation) = ask(operation.advance(Reply::Schema(schema)));
    match request {
        Request::Append { batches, .. } => {
            let documents = EmbedStore::record_to_document(batches).unwrap();
            assert_eq!(documents.len(), 1);
            assert_eq!(documents[0].get_id(), "a");
            assert_eq!(documents[0].get_content(), "new text");
        }
        other => panic!("unexpected request {:?}", other),
    }
    assert!(matches!(outcome(operation.advance(Reply::Done)), Outcome::Done));
}

#[test]
fn searching_queries_for_its_embedding() {
    let (_, operation) = ask(Operation::search("cats", None, None));
    let (request, _) = ask(operation.advance(Reply::Embedded(vec![embedding(0.5)])));
    match request {
        Request::RunQuery { query } => {
            assert_eq!(query.vector, Some(embedding(0.5)));
            assert_eq!(query.limit, 25);
        }
        other => panic!("unexpected request {:?}", other),
    }
}

#[test]
fn updating_adds_nothing_when_deleting_fails() {
    let (_, operation) = ask(Operation::update("a", "new text"));
    assert_refused(operation.advance(refusal()));
}

#[test]
fn indexing_is_on_the_embeddings() {
    let (request, operation) = ask(Operation::create_index());
    match request {
        Request::CreateIndex { columns } => assert_eq!(columns, strings(&["embeddings"])),
        other => panic!("unexpected request {:?}", other),
    }
    assert!(matches!(outcome(operation.advance(Reply::Done)), Outcome::Done));
}

#[test]
fn refusals_end_operations_at_every_stage() {
    let (_, connecting) = ask(Operation::open());
    assert_refused(connecting.advance(refusal()));
    let (_, connecting) = ask(Operation::open());
    let (_, listing) = ask(connecting.advance(Reply::Done));
    assert_refused(listing.advance(refusal()));
    assert_refused(Operation::OpeningTable.advance(refusal()));
    assert_refused(ask(Operation::record_count()).1.advance(refusal()));
    assert_refused(ask(Operation::get_all()).1.advance(refusal()));
    assert_refused(Operation::ListingAll { total: 1 }.advance(refusal()));
    assert_refused(ask(Operation::get("a")).1.advance(refusal()));
    assert_refused(ask(Operation::delete(&strings(&["a"]))).1.advance(refusal()));
    assert_refused(ask(Operation::create_index()).1.advance(refusal()));
    assert_refused(Operation::Appending.advance(refusal()));
    assert_refused(Operation::Searching.advance(refusal()));
}

#[test]
fn broken_off_results_are_runtime_errors() {
    let interrupted = || Reply::Interrupted { message: "stream closed".to_string() };
    let (_, operation) = ask(Operation::get("a"));
    match error(operation.advance(interrupted())) {
        EmbedStoreError::VectorDb(DatabaseError::Runtime { message }) => {
            assert_eq!(message, "stream closed");
        }
        other => panic!("unexpected error {:?}", other),
    }
}

#[test]
fn operations_wait_for_replies_to_their_requests() {
    let (_, operation) = ask(Operation::open());
    assert!(operation.awaits(&Reply::Done));
    assert!(operation.awaits(&refusal()));
    assert!(!operation.awaits(&Reply::Count(1)));
    let (_, operation) = ask(Operation::search("x", None, None));
    assert!(operation.awaits(&Reply::Embedded(vec![])));
    assert!(operation.awaits(&Reply::NotEmbedded(anyhow::Error::msg("m"))));
    assert!(!operation.awaits(&refusal()));
    let (_, operation) = ask(Operation::get("x"));
    assert!(operation.awaits(&Reply::Batches(vec![])));
    assert!(operation.awaits(&Reply::Interrupted { message: String::new() }));
    assert!(!operation.awaits(&Reply::Tables(vec![])));
    let (_, operation) = ask(Operation::record_count());
    assert!(operation.awaits(&Reply::Count(0)));
    assert!(!operation.awaits(&Reply::Done));
    assert!(Operation::ListingTables.awaits(&Reply::Tables(vec![])));
    let schema = EmbedStore::generate_schema(1);
    let reading = Operation::ReadingSchema { embeddings: vec![], ids: vec![], text: vec![] };
    assert!(reading.awaits(&Reply::Schema(schema)));
    assert!(!reading.awaits(&Reply::Done));
}

#[test]
fn errors_are_wrapped_by_their_origin() {
    let database = DatabaseError::Refused { message: "x".to_string() };
    assert!(matches!(EmbedStoreError::from(database), EmbedStoreError::VectorDb(_)));
    let arrow = arrow_schema::ArrowError::SchemaError("x".to_string());
    assert!(matches!(EmbedStoreError::from(arrow), EmbedStoreError::Arrow(_)));
    let model = anyhow::Error::msg("x");
    assert!(matches!(EmbedStoreError::from(model), EmbedStoreError::Embedding(_)));
}

#[test]
fn errors_have_the_text_of_their_cause() {
    let refused = DatabaseError::Refused { message: "no such table".to_string() };
    assert_eq!(EmbedStoreError::from(refused).message(), "no such table");
    let broken_off = DatabaseError::Runtime { message: "stream closed".to_string() };
    assert_eq!(EmbedStoreError::from(broken_off).message(), "stream closed");
    let arrow = arrow_schema::ArrowError::SchemaError("x".to_string());
    assert_eq!(EmbedStoreError::from(arrow).message(), "Schema error: x");
    let model = anyhow::Error::msg("model is gone");
    assert_eq!(EmbedStoreError::from(model).message(), "model is gone");
    let runtime = EmbedStoreError::Runtime("id column not found".to_string());
    assert_eq!(runtime.message(), "id column not found");
}
