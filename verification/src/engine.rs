use vstd::prelude::*;

verus! {

// The physical index engine is an external collaborator: its values pass
// through this crate as opaque handles, and every call into it stands in one
// of the wrappers below, whose contracts are what the rest of the crate
// builds on.

#[verifier::external_type_specification]
#[verifier::external_body]
pub struct ExIndex(tantivy::Index);

#[verifier::external_type_specification]
#[verifier::external_body]
pub struct ExIndexWriter(tantivy::IndexWriter);

#[verifier::external_type_specification]
#[verifier::external_body]
pub struct ExIndexMeta(tantivy::IndexMeta);

#[verifier::external_type_specification]
#[verifier::external_body]
pub struct ExTantivyError(tantivy::TantivyError);

/// Relies on uuid::Uuid::new_v4, a randomly generated version-4 UUID, read
/// out as its 128 bits. The result is random, so nothing is promised of it.
/// Caveat inherited from the call: if the operating system's random source
/// fails, `new_v4` panics rather than returning; shard creation shares that
/// environmental failure mode.
#[verifier::external_body]
pub(crate) fn random_uuid_bits() -> u128 {
    uuid::Uuid::new_v4().as_u128()
}

/// Relies on tantivy::Index::writer: opens a commit-capable writer for the
/// index with the given overall memory arena, acquiring the directory's
/// writer lockfile. Whether it succeeds depends on that lockfile and on the
/// arena size, so nothing is promised of the outcome.
#[verifier::external_body]
pub(crate) fn open_writer(
    index: &tantivy::Index,
    memory_arena_num_bytes: usize,
) -> Result<tantivy::IndexWriter, tantivy::TantivyError> {
    index.writer(memory_arena_num_bytes)
}

/// Relies on tantivy::Index::load_metas: reads the committed metadata from
/// the index directory. The result depends on what is on disk, so nothing is
/// promised of the outcome.
#[verifier::external_body]
pub(crate) fn load_index_metas(
    index: &tantivy::Index,
) -> Result<tantivy::IndexMeta, tantivy::TantivyError> {
    index.load_metas()
}

/// Relies on tantivy::IndexWriter::commit: durably flushes the buffered
/// writes and returns the commit's opstamp. Whether it succeeds depends on
/// the engine's state, so nothing is promised of the outcome.
#[verifier::external_body]
pub(crate) fn commit_writer(
    writer: &mut tantivy::IndexWriter,
) -> Result<u64, tantivy::TantivyError> {
    writer.commit()
}

/// Relies on tantivy's Searcher::space_usage (reached through
/// Index::reader): the storage footprint of the searchable state, in bytes.
/// The result depends on the engine's on-disk state, so nothing is promised
/// of the outcome.
#[verifier::external_body]
pub(crate) fn measure_space(
    index: &tantivy::Index,
) -> Result<u64, tantivy::TantivyError> {
    let reader = index.reader()?;
    let usage = reader.searcher().space_usage()?;
    Ok(usage.total() as u64)
}

/// Relies on tantivy::TantivyError's Display impl: the error's
/// human-readable description.
#[verifier::external_body]
pub(crate) fn error_text(e: &tantivy::TantivyError) -> String {
    format!("{}", e)
}

} // verus!
