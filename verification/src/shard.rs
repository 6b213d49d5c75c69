use vstd::prelude::*;

use crate::engine;
use crate::error::Error;
use crate::handle::LocalIndex;
use crate::settings::Settings;

verus! {

/// A shard's globally-unique identifier: the 128 bits of a randomly
/// generated version-4 UUID.
#[derive(Clone, Copy, Debug, PartialEq, Eq, Hash, Structural)]
pub struct ShardId {
    pub bits: u128,
}

/// Capability set exposed identically by both shard roles: identity, role,
/// and the attached handle's name.
pub trait Shard: Sized {
    /// This shard's own identifier.
    spec fn id(&self) -> ShardId;

    /// Whether this shard is a writable primary.
    spec fn role_is_primary(&self) -> bool;

    /// The identifier of the primary this shard replicates, if any: a
    /// primary never carries one, a replica always carries exactly one.
    spec fn primary_ref(&self) -> Option<ShardId>;

    /// The name the attached handle was attached under; absent until a
    /// handle is attached.
    spec fn attached(&self) -> Option<Seq<char>>;

    /// The wording this role reports when asked for an index name while no
    /// handle is attached.
    spec fn no_handle_text(&self) -> Seq<char>;

    /// Returns this shard's identifier.
    fn shard_id(&self) -> (r: ShardId)
        ensures
            r == self.id(),
    ;

    /// Returns the identifier of the primary this shard replicates, if any.
    fn primary_shard_id(&self) -> (r: Option<ShardId>)
        ensures
            r == self.primary_ref(),
    ;

    /// Returns whether this shard is a writable primary.
    fn is_primary(&self) -> (r: bool)
        ensures
            r == self.role_is_primary(),
    ;

    /// Returns the attached handle's name, and fails with an `IOError`
    /// rather than a default when no handle is attached.
    fn index_name(&self) -> (r: Result<String, Error>)
        ensures
            match self.attached() {
                Some(n) => r matches Ok(s) && s@ == n,
                None => r matches Err(e) && e.text() == self.no_handle_text(),
            },
    ;
}

/// A writable partition of an index. It never references another shard:
/// where there is a replica, the replica references it.
pub struct PrimaryShard {
    shard_id: ShardId,
    index_handle: Option<LocalIndex>,
}

/// A read-only copy of one specific primary shard, holding that primary's
/// identifier for as long as it lives.
pub struct ReplicaShard {
    shard_id: ShardId,
    primary_shard_id: ShardId,
    index_handle: Option<LocalIndex>,
}

impl PrimaryShard {
    /// Creates a new primary shard with a freshly generated random
    /// identifier and no attached handle.
    pub fn new() -> (r: PrimaryShard)
        ensures
            r.role_is_primary(),
            r.primary_ref() is None,
            r.attached() is None,
    {
        PrimaryShard::default()
    }

    /// Attaches a handle for the given open physical index under `name`,
    /// using the default engine configuration. On success the identity is
    /// returned unchanged but for the now-attached handle; when the engine
    /// cannot be opened the failure surfaces as an `IOError`.
    pub fn with_index(self, index: tantivy::Index, name: String) -> (r: Result<
        PrimaryShard,
        Error,
    >)
        ensures
            r matches Ok(p) ==> p.id() == self.id() && p.attached() == Some(name@),
    {
        let settings = Settings::default();
        match LocalIndex::new(index, settings, name.as_str()) {
            Ok(lh) => Ok(PrimaryShard { shard_id: self.shard_id, index_handle: Some(lh) }),
            Err(e) => Err(e),
        }
    }
}

impl Default for PrimaryShard {
    /// A fresh primary shard: a random identifier, no attached handle.
    fn default() -> (r: Self)
        ensures
            r.role_is_primary(),
            r.primary_ref() is None,
            r.attached() is None,
    {
        PrimaryShard { shard_id: ShardId { bits: engine::random_uuid_bits() }, index_handle: None }
    }
}

impl Shard for PrimaryShard {
    closed spec fn id(&self) -> ShardId {
        self.shard_id
    }

    /// A primary is always a primary.
    closed spec fn role_is_primary(&self) -> bool {
        true
    }

    /// A primary never references another primary.
    closed spec fn primary_ref(&self) -> Option<ShardId> {
        None
    }

    closed spec fn attached(&self) -> Option<Seq<char>> {
        match self.index_handle {
            Some(h) => Some(h@),
            None => None,
        }
    }

    open spec fn no_handle_text(&self) -> Seq<char> {
        "Unable to get index handle"@
    }

    fn shard_id(&self) -> (r: ShardId) {
        self.shard_id
    }

    fn primary_shard_id(&self) -> (r: Option<ShardId>) {
        None
    }

    fn is_primary(&self) -> (r: bool) {
        true
    }

    fn index_name(&self) -> (r: Result<String, Error>) {
        match &self.index_handle {
            Some(handle) => Ok(handle.get_name()),
            None => Err(Error::IOError("Unable to get index handle".to_owned())),
        }
    }
}

impl ReplicaShard {
    /// Creates a new replica of the primary with the given identifier: a
    /// freshly generated random identifier of its own, the primary's
    /// identifier stored, and no attached handle.
    pub fn new(primary_shard_id: ShardId) -> (r: ReplicaShard)
        ensures
            !r.role_is_primary(),
            r.primary_ref() == Some(primary_shard_id),
            r.attached() is None,
    {
        ReplicaShard {
            primary_shard_id,
            shard_id: ShardId { bits: engine::random_uuid_bits() },
            index_handle: None,
        }
    }

    /// Attaches a handle for the given open physical index under `name`,
    /// using the default engine configuration. On success the identity is
    /// returned unchanged but for the now-attached handle; when the engine
    /// cannot be opened the failure surfaces as an `IOError`.
    pub fn with_index(self, index: tantivy::Index, name: String) -> (r: Result<
        ReplicaShard,
        Error,
    >)
        ensures
            r matches Ok(p) ==> p.id() == self.id() && p.primary_ref() == self.primary_ref()
                && p.attached() == Some(name@),
    {
        let settings = Settings::default();
        match LocalIndex::new(index, settings, name.as_str()) {
            Ok(lh) => Ok(
                ReplicaShard {
                    shard_id: self.shard_id,
                    primary_shard_id: self.primary_shard_id,
                    index_handle: Some(lh),
                },
            ),
            Err(e) => Err(e),
        }
    }
}

impl Shard for ReplicaShard {
    closed spec fn id(&self) -> ShardId {
        self.shard_id
    }

    /// A replica is never a primary.
    closed spec fn role_is_primary(&self) -> bool {
        false
    }

    /// A replica always references exactly the primary it copies.
    closed spec fn primary_ref(&self) -> Option<ShardId> {
        Some(self.primary_shard_id)
    }

    closed spec fn attached(&self) -> Option<Seq<char>> {
        match self.index_handle {
            Some(h) => Some(h@),
            None => None,
        }
    }

    open spec fn no_handle_text(&self) -> Seq<char> {
        "No index with that name exists"@
    }

    fn shard_id(&self) -> (r: ShardId) {
        self.shard_id
    }

    fn primary_shard_id(&self) -> (r: Option<ShardId>) {
        Some(self.primary_shard_id)
    }

    fn is_primary(&self) -> (r: bool) {
        false
    }

    fn index_name(&self) -> (r: Result<String, Error>) {
        match &self.index_handle {
            Some(handle) => Ok(handle.get_name()),
            None => Err(Error::IOError("No index with that name exists".to_owned())),
        }
    }
}

/// Every primary shard reports the primary role and carries no reference to
/// another primary.
pub proof fn lemma_primary_shard_role(p: PrimaryShard)
    ensures
        p.role_is_primary(),
        p.primary_ref() is None,
{
}

/// Every replica shard reports the replica role and carries exactly the
/// identifier of the primary it copies.
pub proof fn lemma_replica_shard_role(r: ReplicaShard)
    ensures
        !r.role_is_primary(),
        r.primary_ref() is Some,
{
}

} // verus!
