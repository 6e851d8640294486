//! Notes: documents that name themselves.
use rand::distributions::Alphanumeric;
use rand::Rng;
use vstd::prelude::*;

use crate::document::Document;

verus! {

/// How many characters the identifier of a new note has.
pub const NOTE_ID_LENGTH: usize = 6;

/// A note is a document whose identifier is drawn when it is written.
pub type Note = Document;

/// An ASCII letter or digit.
pub open spec fn is_alphanumeric(c: char) -> bool {
    ||| 'a' <= c <= 'z'
    ||| 'A' <= c <= 'Z'
    ||| '0' <= c <= '9'
}

/// An identifier of the form that new notes get.
pub open spec fn is_note_id(id: Seq<char>) -> bool {
    &&& id.len() == NOTE_ID_LENGTH
    &&& forall|i: int| 0 <= i < id.len() ==> is_alphanumeric(#[trigger] id[i])
}

/// Draws one byte with `rand::Rng::sample` from `rand::distributions::Alphanumeric`,
/// on the generator that `rand::thread_rng` hands out.
///
/// Taken for granted: the byte is the code of an ASCII letter or digit. Which one
/// it is, is left to chance.
#[verifier::external_body]
fn sample_alphanumeric() -> (byte: u8)
    ensures
        is_alphanumeric(byte as char),
{
    rand::thread_rng().sample(Alphanumeric)
}

/// `std::string::String::push`: the character is appended at the end.
pub assume_specification[ String::push ](string: &mut String, c: char)
    ensures
        final(string)@ == old(string)@.push(c),
;

/// The identifier that is made of these samples: their characters, one for one, in
/// the order in which they were drawn.
pub fn id_of(samples: &Vec<u8>) -> (id: String)
    ensures
        id@ == samples@.map_values(|byte: u8| byte as char),
{
    let ghost characters = samples@.map_values(|byte: u8| byte as char);
    let mut id = String::new();
    let mut next: usize = 0;
    assert(characters.take(0) =~= Seq::empty());
    while next < samples.len()
        invariant
            next <= samples@.len(),
            characters == samples@.map_values(|byte: u8| byte as char),
            id@ == characters.take(next as int),
        decreases samples@.len() - next,
    {
        id.push(samples[next] as char);
        assert(characters.take(next + 1) =~= characters.take(next as int).push(
            characters[next as int],
        ));
        next = next + 1;
    }
    assert(characters.take(next as int) =~= characters);
    id
}

impl Note {
    /// Creates a note with the given content and a random identifier.
    pub fn new(content: &str) -> (note: Self)
        ensures
            note.text@ == content@,
            is_note_id(note.id@),
            note.id@.len() == 6,
            forall|i: int|
                0 <= i < 6 ==> {
                    let c = #[trigger] note.id@[i];
                    'a' <= c <= 'z' || 'A' <= c <= 'Z' || '0' <= c <= '9'
                },
    {
        Note { id: Self::generate_id(), text: content.to_string() }
    }

    /// Returns the identifier of the note.
    pub fn get_id(&self) -> (id: &str)
        ensures
            id@ == self.id@,
    {
        self.id.as_str()
    }

    /// Returns the content of the note.
    pub fn get_content(&self) -> (content: &str)
        ensures
            content@ == self.text@,
    {
        self.text.as_str()
    }

    /// Draws as many samples as an identifier is long, one after the other, and
    /// makes an identifier of them.
    fn generate_id() -> (id: String)
        ensures
            is_note_id(id@),
    {
        let mut samples: Vec<u8> = Vec::new();
        while samples.len() < NOTE_ID_LENGTH
            invariant
                samples@.len() <= NOTE_ID_LENGTH,
                forall|i: int|
                    0 <= i < samples@.len() ==> is_alphanumeric(#[trigger] samples@[i] as char),
            decreases NOTE_ID_LENGTH - samples@.len(),
        {
            samples.push(sample_alphanumeric());
        }
        id_of(&samples)
    }
}

} // verus!
