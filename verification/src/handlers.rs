use vstd::prelude::*;
use vstd::string::StringExecFns;

use crate::catalog::IndexCatalog;
use crate::error::Error;

verus! {

/// The per-request configuration of the summary operation: whether the
/// (possibly expensive) storage-footprint figure is included. Absent means
/// false.
pub struct QueryOptions {
    pub include_sizes: Option<bool>,
}

impl QueryOptions {
    /// Whether storage-footprint statistics were asked for: the option's
    /// value, with absent read as false.
    pub open spec fn include_sizes_spec(&self) -> bool {
        self.include_sizes == Some(true)
    }

    /// Returns whether storage-footprint statistics were asked for.
    pub fn include_sizes(&self) -> (r: bool)
        ensures
            r == self.include_sizes_spec(),
    {
        match self.include_sizes {
            Some(b) => b,
            None => false,
        }
    }
}

/// The summary of one resident index: its committed metadata, and its
/// storage footprint in bytes if and only if that was asked for.
pub struct SummaryResponse {
    pub metas: tantivy::IndexMeta,
    pub size: Option<u64>,
}

impl SummaryResponse {
    /// Builds a summary carrying exactly the given committed metadata and
    /// the given optional footprint.
    pub fn new(metas: tantivy::IndexMeta, size: Option<u64>) -> (r: SummaryResponse)
        ensures
            r.metas == metas,
            r.size == size,
    {
        SummaryResponse { metas, size }
    }
}

/// How a flush request ended: the commit went through; the name resolved to
/// no resident index; or the engine reported a commit failure, leaving the
/// previously committed state intact.
pub enum FlushStatus {
    Committed,
    NotFound,
    CommitFailed(Error),
}

/// How a summary request ended: the summary was built; the name resolved to
/// no resident index, with the error body naming it; or the engine failed
/// to read the metadata or measure the footprint. Index-not-found is a
/// distinct outcome, never folded into an engine failure.
pub enum SummaryStatus {
    Found(SummaryResponse),
    NotFound(Error),
    Failed(Error),
}

/// The error text reported for a summary of a name that resolves to no
/// resident index.
pub open spec fn missing_index_text(name: Seq<char>) -> Seq<char> {
    "Index "@ + name + " does not exist"@
}

/// Builds the summary of the named index: resolves the name through the
/// catalog, reads the committed metadata, and adds the storage footprint if
/// and only if `options` asks for it. A name that resolves to no resident
/// index reports `NotFound`, with an error body naming it, exactly when the
/// catalog lacks the name. The catalog is only read, never changed; a caller
/// sharing the catalog behind a reader-writer lock contends here only with
/// structural writers, never with operations on other indices.
pub fn index_summary(catalog: &IndexCatalog, index: &String, options: &QueryOptions) -> (r:
    SummaryStatus)
    requires
        catalog.wf(),
    ensures
        r is NotFound <==> !catalog.has_name(index@),
        r matches SummaryStatus::NotFound(e) ==> e.text() == missing_index_text(index@),
        r matches SummaryStatus::Found(s) ==> (s.size is Some <==> options.include_sizes_spec()),
{
    match catalog.get_index(index) {
        Some(handle) => {
            let metas = match handle.load_metas() {
                Ok(m) => m,
                Err(e) => {
                    return SummaryStatus::Failed(e);
                },
            };
            if options.include_sizes() {
                match handle.get_space() {
                    Ok(space) => SummaryStatus::Found(SummaryResponse::new(metas, Some(space))),
                    Err(e) => SummaryStatus::Failed(e),
                }
            } else {
                SummaryStatus::Found(SummaryResponse::new(metas, None))
            }
        },
        None => {
            let mut text = "Index ".to_owned();
            text.append(index.as_str());
            text.append(" does not exist");
            SummaryStatus::NotFound(Error::IOError(text))
        },
    }
}

/// Commits the named index: resolves the name through the catalog, then
/// flushes under that handle's own writer lock. The catalog is only read,
/// never changed; a caller sharing the catalog behind a reader-writer lock
/// contends here only with structural writers, so flushes of two different
/// resident indices proceed together, while two flushes of the same index
/// serialize on its writer lock. A name that resolves to no resident index
/// reports `NotFound` and commits nothing.
pub fn flush(catalog: &IndexCatalog, index: &String) -> (r: FlushStatus)
    requires
        catalog.wf(),
    ensures
        r is NotFound <==> !catalog.has_name(index@),
{
    match catalog.get_index(index) {
        Some(local_index) => match local_index.commit() {
            Ok(_) => FlushStatus::Committed,
            Err(e) => FlushStatus::CommitFailed(e),
        },
        None => FlushStatus::NotFound,
    }
}

} // verus!
