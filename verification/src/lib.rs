//! The shard identity and per-index catalog core of a sharded full-text
//! search node: shard roles (writable primary, read-only replica), runtime
//! handles around an open physical index, a name-to-handle catalog, and the
//! summary and flush operations over it. Commits run under each handle's
//! own writer lock, never under a catalog-wide one, so operations on
//! different indices do not serialize against each other.

use vstd::prelude::*;

mod catalog;
mod engine;
mod error;
mod handle;
mod handlers;
mod settings;
mod shard;

pub use catalog::IndexCatalog;
pub use error::Error;
pub use handle::LocalIndex;
pub use handle::WriterLock;
pub use handlers::flush;
pub use handlers::index_summary;
pub use handlers::FlushStatus;
pub use handlers::QueryOptions;
pub use handlers::SummaryResponse;
pub use handlers::SummaryStatus;
pub use settings::Settings;
pub use settings::DEFAULT_WRITER_MEMORY;
pub use shard::PrimaryShard;
pub use shard::ReplicaShard;
pub use shard::Shard;
pub use shard::ShardId;
