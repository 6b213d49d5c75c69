use vstd::prelude::*;
use vstd::rwlock::RwLock;
use vstd::rwlock::RwLockPredicate;

use crate::engine;
use crate::error::Error;
use crate::settings::Settings;

verus! {

/// The (trivial) bound on what the writer lock may hold: the writer's state
/// is opaque to this crate, so any writer may sit in the lock.
pub struct AnyWriter;

impl RwLockPredicate<tantivy::IndexWriter> for AnyWriter {
    open spec fn inv(self, v: tantivy::IndexWriter) -> bool {
        true
    }
}

/// The per-handle exclusive lock around the commit-capable writer. It is a
/// lock of its own, independent of any lock around the catalog, so commits
/// against different indices never serialize against each other.
pub type WriterLock = RwLock<tantivy::IndexWriter, AnyWriter>;

/// A runtime handle pairing one open physical index with its name and its
/// commit-capable writer. The writer sits behind [`WriterLock`], so a commit
/// takes only this handle's own lock.
pub struct LocalIndex {
    name: String,
    index: tantivy::Index,
    writer: WriterLock,
}

impl View for LocalIndex {
    type V = Seq<char>;

    /// A handle's abstract state is the index name it was attached under;
    /// the engine's own state is opaque to this crate.
    closed spec fn view(&self) -> Seq<char> {
        self.name@
    }
}

impl LocalIndex {
    /// Attaches an already-open physical index under the given name: opens
    /// its writer with the configured memory arena, and fails with an
    /// `IOError` carrying the engine's description when the writer cannot be
    /// opened.
    pub fn new(index: tantivy::Index, settings: Settings, name: &str) -> (r: Result<
        LocalIndex,
        Error,
    >)
        ensures
            r matches Ok(h) ==> h@ == name@,
    {
        match engine::open_writer(&index, settings.writer_memory) {
            Ok(w) => {
                let writer = WriterLock::new(w, Ghost(AnyWriter));
                Ok(LocalIndex { name: name.to_owned(), index, writer })
            },
            Err(e) => Err(Error::IOError(engine::error_text(&e))),
        }
    }

    /// Returns the index name, fixed at attach time.
    pub fn get_name(&self) -> (r: String)
        ensures
            r@ == self@,
    {
        self.name.clone()
    }

    /// Returns the open physical index this handle wraps.
    pub fn get_index(&self) -> &tantivy::Index {
        &self.index
    }

    /// Returns the exclusive lock guarding this handle's writer.
    pub fn get_writer(&self) -> &WriterLock {
        &self.writer
    }

    /// Reads the currently committed metadata from the engine; buffered,
    /// uncommitted writes are not reflected. The engine decides the outcome;
    /// a failure carries the engine's description.
    pub fn load_metas(&self) -> Result<tantivy::IndexMeta, Error> {
        match engine::load_index_metas(&self.index) {
            Ok(m) => Ok(m),
            Err(e) => Err(Error::IOError(engine::error_text(&e))),
        }
    }

    /// Computes the storage footprint of the committed state, in bytes. The
    /// engine decides the outcome; a failure carries the engine's
    /// description.
    pub fn get_space(&self) -> Result<u64, Error> {
        match engine::measure_space(&self.index) {
            Ok(n) => Ok(n),
            Err(e) => Err(Error::IOError(engine::error_text(&e))),
        }
    }

    /// Flushes buffered writes durably, under this handle's own writer lock:
    /// the lock is acquired, the engine commits, and the lock is released.
    /// The engine decides the outcome; a failure carries the engine's
    /// description and leaves the previously committed state intact.
    pub fn commit(&self) -> Result<u64, Error> {
        let (mut w, write_handle) = self.writer.acquire_write();
        let r = engine::commit_writer(&mut w);
        write_handle.release_write(w);
        match r {
            Ok(opstamp) => Ok(opstamp),
            Err(e) => Err(Error::IOError(engine::error_text(&e))),
        }
    }
}

} // verus!
