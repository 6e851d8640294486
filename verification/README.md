# notebook

A store of notes with embeddings: what a note is, how notes are laid out in Arrow
record batches and read back, and how the operations of the store go from request
to reply. The library is written in Verus, and its contracts are proved.

- `src/document.rs`, `src/note.rs`: documents, and notes with random identifiers.
- `src/error.rs`: what can go wrong.
- `src/columns.rs`: what is taken for granted of Arrow.
- `src/batches.rs`: documents in record batches.
- `src/query.rs`: row filters and queries.
- `src/operation.rs`: the operations, as machines that ask for work and wait for replies.
- `src/store.rs`: the store, which computes embeddings with its model.
- `src/database.rs`: a model of a database that does what it is asked to.
- `src/laws.rs`: what holds across these functions.

The library does no I/O. `app/` runs its operations on a LanceDB database, which it
needs the `lancedb` crate for.

32-bit floats (embeddings and distances) are held as their bit patterns.
