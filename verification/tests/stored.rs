use std::sync::Arc;

use arrow_array::{ArrayRef, RecordBatch, StringArray};
use arrow_schema::Schema;
use notebook::columns::TableBatch;
use notebook::operation::{Fault, Operation, Outcome, Reply, Request, Step};
use notebook::{EmbedStore, Note};

/// A table in memory that does what it is asked to.
struct MemoryTable {
    schema: Arc<Schema>,
    rows: Vec<(String, String)>,
}

fn strings(values: &[&str]) -> Vec<String> {
    values.iter().map(|v| v.to_string()).collect()
}

fn between<'a>(text: &'a str, prefix: &str, suffix: &str) -> &'a str {
    text.strip_prefix(prefix).and_then(|rest| rest.strip_suffix(suffix)).unwrap()
}

impl MemoryTable {
    fn new() -> MemoryTable {
        MemoryTable { schema: EmbedStore::generate_schema(384), rows: Vec::new() }
    }

    fn perform(&mut self, request: Request) -> Reply {
        match request {
            Request::Embed { documents } => Reply::Embedded(vec![vec![0; 384]; documents.len()]),
            Request::ReadSchema => Reply::Schema(self.schema.clone()),
            Request::Append { batches, .. } => {
                let documents = EmbedStore::record_to_document(batches).unwrap();
                self.rows.extend(documents.into_iter().map(|d| (d.id, d.text)));
                Reply::Done
            }
            Request::CountRows => Reply::Count(self.rows.len()),
            Request::RunQuery { query } => {
                let selected = self.rows.iter().filter(|row| match &query.filter {
                    None => true,
                    Some(filter) => row.0 == between(filter, "id = '", "'"),
                });
                let selected: Vec<&(String, String)> = selected.take(query.limit).collect();
                let ids: Vec<&str> = selected.iter().map(|row| row.0.as_str()).collect();
                let texts: Vec<&str> = selected.iter().map(|row| row.1.as_str()).collect();
                let ids: ArrayRef = Arc::new(StringArray::from(ids));
                let texts: ArrayRef = Arc::new(StringArray::from(texts));
                let columns = vec![("text", texts), ("id", ids)];
                let batch = RecordBatch::try_from_iter(columns).unwrap();
                Reply::Batches(vec![TableBatch { batch }])
            }
            Request::DeleteRows { predicate } => {
                let id = between(&predicate, "id in ('", "')");
                self.rows.retain(|row| row.0 != id);
                Reply::Done
            }
            Request::CreateIndex { .. } => Reply::Done,
            other => panic!("not for a table: {:?}", other),
        }
    }

    fn run(&mut self, mut step: Step) -> Step {
        loop {
            match step {
                Step::Ask { request, operation } => {
                    let reply = self.perform(request);
                    assert!(operation.awaits(&reply));
                    step = operation.advance(reply);
                }
                end => return end,
            }
        }
    }

    fn succeed(&mut self, step: Step) -> Outcome {
        match self.run(step) {
            Step::Finish(Ok(outcome)) => outcome,
            other => panic!("the operation did not succeed: {:?}", other),
        }
    }

    fn look_up(&mut self, id: &str) -> Option<(String, String)> {
        match self.succeed(Operation::get(id)) {
            Outcome::Found(document) => document.map(|d| (d.id, d.text)),
            other => panic!("unexpected outcome {:?}", other),
        }
    }

    fn count(&mut self) -> usize {
        match self.succeed(Operation::record_count()) {
            Outcome::Count(count) => count,
            other => panic!("unexpected outcome {:?}", other),
        }
    }
}

#[test]
fn note_is_found_until_it_is_deleted() {
    let mut table = MemoryTable::new();
    table.succeed(Operation::add(strings(&["other"]), strings(&["unrelated"])));
    let note = Note::new("first text");
    let id = note.get_id().to_string();
    assert_eq!(table.look_up(&id), None);
    table.succeed(Operation::add(vec![id.clone()], vec![note.get_content().to_string()]));
    assert_eq!(table.look_up(&id), Some((id.clone(), "first text".to_string())));
    table.succeed(Operation::update(&id, "second text"));
    assert_eq!(table.look_up(&id), Some((id.clone(), "second text".to_string())));
    table.succeed(Operation::delete(&vec![id.clone()]));
    assert_eq!(table.look_up(&id), None);
    assert_eq!(table.rows, vec![("other".to_string(), "unrelated".to_string())]);
}

#[test]
fn count_grows_by_the_documents_added() {
    let mut table = MemoryTable::new();
    assert_eq!(table.count(), 0);
    table.succeed(Operation::add(strings(&["a", "b"]), strings(&["1", "2"])));
    assert_eq!(table.count(), 2);
    table.succeed(Operation::add(strings(&["a", "c", "c"]), strings(&["3", "4", "5"])));
    assert_eq!(table.count(), 5);
}

#[test]
fn deleting_twice_is_deleting_once() {
    let mut table = MemoryTable::new();
    table.succeed(Operation::add(strings(&["a", "b", "a"]), strings(&["1", "2", "3"])));
    assert!(matches!(table.succeed(Operation::delete(&strings(&["a"]))), Outcome::Done));
    let left = table.rows.clone();
    assert_eq!(left, vec![("b".to_string(), "2".to_string())]);
    assert!(matches!(table.succeed(Operation::delete(&strings(&["a"]))), Outcome::Done));
    assert_eq!(table.rows, left);
}

#[test]
fn deleting_several_ids_removes_the_joined_one() {
    let mut table = MemoryTable::new();
    table.succeed(Operation::add(strings(&["a", "b", "a, b"]), strings(&["1", "2", "3"])));
    table.succeed(Operation::delete(&strings(&["a", "b"])));
    assert_eq!(table.count(), 2);
    assert_eq!(table.look_up("a, b"), None);
}

#[test]
fn two_rows_under_one_id_are_a_fault() {
    let mut table = MemoryTable::new();
    table.succeed(Operation::add(strings(&["a", "a"]), strings(&["1", "2"])));
    assert!(matches!(table.run(Operation::get("a")), Step::Broken(Fault::AmbiguousId)));
}

#[test]
fn nothing_is_written_when_lists_do_not_pair_up() {
    let mut table = MemoryTable::new();
    let end = table.run(Operation::add(strings(&["a"]), strings(&["1", "2"])));
    assert!(matches!(end, Step::Broken(Fault::RejectedBatch(_))));
    assert!(table.rows.is_empty());
    let end = table.run(Operation::add(strings(&["a"]), strings(&[])));
    assert!(matches!(end, Step::Broken(Fault::NoEmbedding)));
    assert!(table.rows.is_empty());
}

#[test]
fn listing_stops_at_its_limit() {
    let mut table = MemoryTable::new();
    let ids: Vec<String> = (0..1003).map(|i| format!("n{}", i)).collect();
    table.succeed(Operation::add(ids.clone(), ids));
    match table.succeed(Operation::get_all()) {
        Outcome::Listed(documents, total) => {
            assert_eq!(documents.len(), 1000);
            assert_eq!(total, 1003);
        }
        other => panic!("unexpected outcome {:?}", other),
    }
}

#[test]
fn table_of_any_name_is_created_once() {
    let mut names = strings(&["other"]);
    match EmbedStore::get_or_create_table(&names, "papers") {
        Request::CreateTable { name, schema } => {
            assert_eq!(schema, EmbedStore::generate_schema(384));
            names.push(name);
        }
        other => panic!("unexpected request {:?}", other),
    }
    match EmbedStore::get_or_create_table(&names, "papers") {
        Request::OpenTable { name } => assert_eq!(name, "papers"),
        other => panic!("unexpected request {:?}", other),
    }
}
