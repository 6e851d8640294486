use notebook::note::id_of;
use notebook::{Document, Note};

fn document(id: &str, text: &str) -> Document {
    Document { id: id.to_string(), text: text.to_string() }
}

#[test]
fn new_note_keeps_its_content() {
    let note = Note::new("buy milk");
    assert_eq!(note.get_content(), "buy milk");
    assert_eq!(note.text, "buy milk");
    assert_eq!(Note::new("").get_content(), "");
}

#[test]
fn new_note_has_six_letters_and_digits_for_an_id() {
    for _ in 0..200 {
        let note = Note::new("text");
        assert_eq!(note.get_id().chars().count(), 6);
        assert!(note.get_id().chars().all(|c| c.is_ascii_alphanumeric()));
    }
}

#[test]
fn ids_are_drawn_anew() {
    let first = Note::new("text");
    let others: Vec<Note> = (0..20).map(|_| Note::new("text")).collect();
    assert!(others.iter().any(|note| note.get_id() != first.get_id()));
}

#[test]
fn getters_return_the_fields() {
    let note: Note = document("a1", "hello");
    assert_eq!(note.get_id(), "a1");
    assert_eq!(note.get_content(), "hello");
}

#[test]
fn documents_are_the_same_when_their_ids_are() {
    assert!(document("a", "one") == document("a", "two"));
    assert!(document("a", "one") != document("b", "one"));
    let a = document("a", "one");
    let b = document("a", "two");
    let c = document("a", "three");
    assert!(a == a);
    assert!(a == b && b == a);
    assert!(b == c && a == c);
}

#[test]
fn id_is_the_samples_in_order() {
    assert_eq!(id_of(&vec![b'x', b'7', b'Q', b'a', b'0', b'Z']), "x7Qa0Z");
    assert_eq!(id_of(&vec![b'a', b'a', b'b', b'a', b'a', b'a']), "aabaaa");
    assert_eq!(id_of(&vec![]), "");
    assert_eq!(id_of(&vec![0xe9]), "\u{e9}");
}

#[test]
fn characters_of_an_id_are_drawn_one_by_one() {
    let notes: Vec<Note> = (0..50).map(|_| Note::new("text")).collect();
    assert!(notes.iter().any(|note| {
        let first = note.get_id().chars().next();
        note.get_id().chars().any(|c| Some(c) != first)
    }));
}
