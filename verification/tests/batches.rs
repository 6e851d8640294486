use std::sync::Arc;

use arrow_array::{
    Array, ArrayRef, FixedSizeListArray, Float32Array, Int32Array, RecordBatch, StringArray,
};
use arrow_schema::{DataType, Field, Schema};
use notebook::batches::is_storable;
use notebook::columns::TableBatch;
use notebook::{EmbedStore, EmbedStoreError};

fn strings(values: &[&str]) -> Vec<String> {
    values.iter().map(|v| v.to_string()).collect()
}

fn bits(values: &[f32]) -> Vec<u32> {
    values.iter().map(|v| v.to_bits()).collect()
}

fn text_array(values: &[&str]) -> ArrayRef {
    Arc::new(StringArray::from(values.to_vec()))
}

fn batch(columns: Vec<(&str, ArrayRef)>) -> TableBatch {
    TableBatch { batch: RecordBatch::try_from_iter(columns).unwrap() }
}

fn runtime_message(error: EmbedStoreError) -> String {
    match error {
        EmbedStoreError::Runtime(message) => message,
        other => panic!("unexpected error {:?}", other),
    }
}

fn read(batches: Vec<TableBatch>) -> Vec<(String, String)> {
    let documents = EmbedStore::record_to_document(batches).unwrap();
    documents.into_iter().map(|d| (d.id, d.text)).collect()
}

fn pair(id: &str, text: &str) -> (String, String) {
    (id.to_string(), text.to_string())
}

#[test]
fn schema_has_embeddings_text_and_id() {
    let schema = EmbedStore::generate_schema(384);
    let expected = Schema::new(vec![
        Field::new(
            "embeddings",
            DataType::FixedSizeList(Arc::new(Field::new("item", DataType::Float32, true)), 384),
            true,
        ),
        Field::new("text", DataType::Utf8, false),
        Field::new("id", DataType::Utf8, false),
    ]);
    assert_eq!(*schema, expected);
    assert!(schema.metadata().is_empty());
    assert!(schema.fields().iter().all(|field| field.metadata().is_empty()));
}

#[test]
fn schema_size_wraps_at_32_bits() {
    let schema = EmbedStore::generate_schema((1usize << 32) + 7);
    match schema.field(0).data_type() {
        DataType::FixedSizeList(_, size) => assert_eq!(*size, 7),
        other => panic!("unexpected type {:?}", other),
    }
}

#[test]
fn wrap_in_option_wraps_rows_and_items() {
    let source = vec![vec![1, 2, 3], vec![4, 5, 6]];
    let result = EmbedStore::wrap_in_option(source);
    assert_eq!(
        result,
        vec![Some(vec![Some(1), Some(2), Some(3)]), Some(vec![Some(4), Some(5), Some(6)])]
    );
}

#[test]
fn wrap_in_option_of_nothing() {
    let none: Vec<Vec<String>> = Vec::new();
    assert_eq!(EmbedStore::wrap_in_option(none), Vec::new());
    let empty_row: Vec<Vec<u8>> = vec![vec![]];
    assert_eq!(EmbedStore::wrap_in_option(empty_row), vec![Some(vec![])]);
}

#[test]
fn record_batch_holds_embeddings_texts_and_ids() {
    let schema = EmbedStore::generate_schema(2);
    let batches = EmbedStore::create_record_batch(
        vec![bits(&[0.5, -1.0]), bits(&[2.25, 3.0])],
        strings(&["one", "two"]),
        strings(&["a", "b"]),
        schema.clone(),
    )
    .unwrap();
    assert_eq!(batches.len(), 1);
    let batch = &batches[0].batch;
    assert_eq!(batch.num_rows(), 2);
    assert_eq!(batch.schema(), schema);
    let vectors = batch.column(0).as_any().downcast_ref::<FixedSizeListArray>().unwrap();
    let second = vectors.value(1);
    let second = second.as_any().downcast_ref::<Float32Array>().unwrap();
    assert_eq!(second.values().to_vec(), vec![2.25f32, 3.0]);
    assert_eq!(vectors.null_count(), 0);
    let texts = batch.column(1).as_any().downcast_ref::<StringArray>().unwrap();
    assert_eq!(texts.value(0), "one");
    let ids = batch.column(2).as_any().downcast_ref::<StringArray>().unwrap();
    assert_eq!(ids.value(1), "b");
}

#[test]
fn ragged_embeddings_are_cut_to_the_size_of_the_first() {
    let embeddings = vec![bits(&[1.0, 2.0]), bits(&[3.0]), bits(&[4.0, 5.0, 6.0])];
    let texts = strings(&["x", "y", "z"]);
    let ids = strings(&["a", "b", "c"]);
    assert!(is_storable(&embeddings, &texts, &ids));
    let batches =
        EmbedStore::create_record_batch(embeddings, texts, ids, EmbedStore::generate_schema(2))
            .unwrap();
    let vectors = batches[0].batch.column(0).as_any().downcast_ref::<FixedSizeListArray>().unwrap();
    let second = vectors.value(1);
    let second = second.as_any().downcast_ref::<Float32Array>().unwrap();
    assert_eq!(second.values().to_vec(), vec![3.0f32, 4.0]);
}

#[test]
fn arrow_rejects_too_few_texts() {
    let result = EmbedStore::create_record_batch(
        vec![bits(&[1.0]), bits(&[2.0])],
        strings(&["one"]),
        strings(&["a", "b"]),
        EmbedStore::generate_schema(1),
    );
    let message = result.err().unwrap().to_string();
    assert!(message.contains("same length"), "{}", message);
}

#[test]
fn arrow_rejects_embeddings_of_another_size() {
    let result = EmbedStore::create_record_batch(
        vec![bits(&[1.0])],
        strings(&["one"]),
        strings(&["a"]),
        EmbedStore::generate_schema(2),
    );
    let message = result.err().unwrap().to_string();
    assert!(message.contains("column types must match"), "{}", message);
}

#[test]
fn arrow_rejects_a_schema_with_other_columns() {
    let schema = Arc::new(Schema::new(vec![Field::new("id", DataType::Utf8, false)]));
    let result = EmbedStore::create_record_batch(
        vec![bits(&[1.0])],
        strings(&["one"]),
        strings(&["a"]),
        schema,
    );
    assert!(result.is_err());
}

#[test]
fn storable_asks_for_whole_embeddings() {
    let none: Vec<Vec<u32>> = Vec::new();
    assert!(!is_storable(&none, &strings(&[]), &strings(&[])));
    assert!(is_storable(&vec![vec![1, 2]], &strings(&["t"]), &strings(&["i"])));
    assert!(!is_storable(&vec![vec![1, 2], vec![3]], &strings(&["t", "u"]), &strings(&["i", "j"])));
    assert!(is_storable(&vec![vec![]], &strings(&["t"]), &strings(&["i"])));
}

#[test]
fn empty_embeddings_can_be_stored() {
    let batches = EmbedStore::create_record_batch(
        vec![vec![], vec![]],
        strings(&["one", "two"]),
        strings(&["a", "b"]),
        EmbedStore::generate_schema(0),
    )
    .unwrap();
    assert_eq!(read(batches), vec![pair("a", "one"), pair("b", "two")]);
}

#[test]
fn written_documents_are_read_back() {
    let batches = EmbedStore::create_record_batch(
        vec![bits(&[1.0, 2.0]), bits(&[3.0, 4.0]), bits(&[5.0, 6.0])],
        strings(&["first", "z\u{fc}rich", ""]),
        strings(&["k1", "k2", "k3"]),
        EmbedStore::generate_schema(2),
    )
    .unwrap();
    assert_eq!(
        read(batches),
        vec![pair("k1", "first"), pair("k2", "z\u{fc}rich"), pair("k3", "")]
    );
}

#[test]
fn no_batches_hold_no_documents() {
    assert!(EmbedStore::record_to_document(vec![]).unwrap().is_empty());
    assert!(EmbedStore::record_to_document_with_distances(vec![]).unwrap().is_empty());
}

#[test]
fn batches_are_read_in_turn() {
    let first = batch(vec![("id", text_array(&["a", "b"])), ("text", text_array(&["1", "2"]))]);
    let second = batch(vec![("text", text_array(&["3"])), ("id", text_array(&["c"]))]);
    assert_eq!(read(vec![first, second]), vec![pair("a", "1"), pair("b", "2"), pair("c", "3")]);
}

#[test]
fn first_column_of_a_name_counts() {
    let schema = Arc::new(Schema::new(vec![
        Field::new("id", DataType::Utf8, false),
        Field::new("text", DataType::Utf8, false),
        Field::new("id", DataType::Utf8, false),
    ]));
    let columns = vec![text_array(&["a"]), text_array(&["t"]), text_array(&["z"])];
    let twice = TableBatch { batch: RecordBatch::try_new(schema, columns).unwrap() };
    assert_eq!(read(vec![twice]), vec![pair("a", "t")]);
}

#[test]
fn missing_columns_are_reported() {
    let no_id = batch(vec![("text", text_array(&["1"]))]);
    let error = EmbedStore::record_to_document(vec![no_id]).err().unwrap();
    assert_eq!(runtime_message(error), "id column not found");
    let no_text = batch(vec![("id", text_array(&["a"]))]);
    let error = EmbedStore::record_to_document(vec![no_text]).err().unwrap();
    assert_eq!(runtime_message(error), "text column not found");
    let no_distance = batch(vec![("id", text_array(&["a"])), ("text", text_array(&["1"]))]);
    let error = EmbedStore::record_to_document_with_distances(vec![no_distance]).err().unwrap();
    assert_eq!(runtime_message(error), "_distance column not found");
}

#[test]
fn columns_of_another_type_are_reported() {
    let numbers: ArrayRef = Arc::new(Int32Array::from(vec![1]));
    let bad_id = batch(vec![("id", numbers.clone()), ("text", text_array(&["1"]))]);
    let error = EmbedStore::record_to_document(vec![bad_id]).err().unwrap();
    assert_eq!(runtime_message(error), "Failed downcasting id column");
    let bad_text = batch(vec![("id", text_array(&["a"])), ("text", numbers.clone())]);
    let error = EmbedStore::record_to_document(vec![bad_text]).err().unwrap();
    assert_eq!(runtime_message(error), "Failed downcasting text column");
    let bad_distance = batch(vec![
        ("id", text_array(&["a"])),
        ("text", text_array(&["1"])),
        ("_distance", numbers),
    ]);
    let error = EmbedStore::record_to_document_with_distances(vec![bad_distance]).err().unwrap();
    assert_eq!(runtime_message(error), "Failed downcasting _distance column");
}

#[test]
fn first_faulty_batch_decides_the_error() {
    let good = batch(vec![("id", text_array(&["a"])), ("text", text_array(&["1"]))]);
    let no_text = batch(vec![("id", text_array(&["a"]))]);
    let no_id = batch(vec![("text", text_array(&["1"]))]);
    let error = EmbedStore::record_to_document(vec![good, no_text, no_id]).err().unwrap();
    assert_eq!(runtime_message(error), "text column not found");
}

#[test]
fn distances_come_with_their_documents() {
    let distances: ArrayRef = Arc::new(Float32Array::from(vec![0.25f32, 1.5]));
    let columns = vec![
        ("id", text_array(&["a", "b"])),
        ("text", text_array(&["1", "2"])),
        ("_distance", distances),
    ];
    let ranked = EmbedStore::record_to_document_with_distances(vec![batch(columns.clone())]).unwrap();
    assert_eq!(ranked.len(), 2);
    assert_eq!(ranked[0].0.id, "a");
    assert_eq!(ranked[1].0.text, "2");
    assert_eq!(f32::from_bits(ranked[0].1), 0.25);
    assert_eq!(f32::from_bits(ranked[1].1), 1.5);
    assert_eq!(read(vec![batch(columns)]), vec![pair("a", "1"), pair("b", "2")]);
}

#[test]
fn downcasts_find_columns_by_name_and_type() {
    let floats: ArrayRef = Arc::new(Float32Array::from(vec![1.0f32]));
    let table = batch(vec![("id", text_array(&["a"])), ("_distance", floats)]);
    assert!(EmbedStore::downcast_string_column(&table, "id").is_ok());
    assert!(EmbedStore::downcast_float_column(&table, "_distance").is_ok());
    let error = EmbedStore::downcast_float_column(&table, "id").err().unwrap();
    assert_eq!(runtime_message(error), "Failed downcasting id column");
    let error = EmbedStore::downcast_string_column(&table, "other").err().unwrap();
    assert_eq!(runtime_message(error), "other column not found");
}
