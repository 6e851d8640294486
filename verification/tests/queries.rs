use notebook::EmbedStore;

fn strings(values: &[&str]) -> Vec<String> {
    values.iter().map(|v| v.to_string()).collect()
}

#[test]
fn filter_quotes_the_id() {
    assert_eq!(EmbedStore::id_filter("abc123"), "id = 'abc123'");
    assert_eq!(EmbedStore::id_filter(""), "id = ''");
}

#[test]
fn filters_tell_ids_apart() {
    assert_ne!(EmbedStore::id_filter("a"), EmbedStore::id_filter("b"));
    assert_ne!(EmbedStore::id_filter("a"), EmbedStore::id_filter("a'"));
}

#[test]
fn filter_of_a_note_has_two_quotes() {
    let note = notebook::Note::new("text");
    let filter = EmbedStore::id_filter(note.get_id());
    assert_eq!(filter.matches('\'').count(), 2);
}

#[test]
fn predicate_lists_the_ids_between_one_pair_of_quotes() {
    assert_eq!(EmbedStore::delete_predicate(&strings(&[])), "id in ('')");
    assert_eq!(EmbedStore::delete_predicate(&strings(&["a"])), "id in ('a')");
    assert_eq!(EmbedStore::delete_predicate(&strings(&["a", "b", "c"])), "id in ('a, b, c')");
}

#[test]
fn queries_have_a_default_limit() {
    let query = EmbedStore::execute_query(None, Some("id = 'a'"), None);
    assert_eq!(query.limit, 10);
    assert_eq!(query.filter.as_deref(), Some("id = 'a'"));
    assert!(query.vector.is_none());
    let query = EmbedStore::execute_query(Some(vec![7]), None, Some(0));
    assert_eq!(query.limit, 0);
    assert!(query.filter.is_none());
    assert_eq!(query.vector, Some(vec![7]));
}

#[test]
fn searches_carry_their_vector() {
    let query = EmbedStore::execute_search(vec![1, 2], None, None);
    assert_eq!(query.limit, 10);
    assert_eq!(query.vector, Some(vec![1, 2]));
    let query = EmbedStore::execute_search(vec![], Some("x"), Some(3));
    assert_eq!(query.limit, 3);
    assert_eq!(query.filter.as_deref(), Some("x"));
}

#[test]
fn several_ids_are_deleted_as_one() {
    assert_eq!(
        EmbedStore::delete_predicate(&strings(&["a", "b"])),
        EmbedStore::delete_predicate(&strings(&["a, b"]))
    );
}
