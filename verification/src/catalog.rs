use vstd::prelude::*;

use std::sync::Arc;

use crate::handle::LocalIndex;

verus! {

/// The node-local registry mapping an index name to its attached handle.
///
/// Structural operations (existence check, lookup, insert) are short,
/// in-memory critical sections. Handles are held and handed out with shared
/// ownership, so a caller that guards the catalog with a lock needs it only
/// for the lookup itself: the returned handle stays usable after that lock
/// is released, and the slow work (a commit, a metadata read) runs under
/// the handle's own writer lock or under no lock at all.
pub struct IndexCatalog {
    entries: Vec<(String, Arc<LocalIndex>)>,
}

impl IndexCatalog {
    /// Well-formed: names are unique keys, and every handle is registered
    /// under exactly the name it was attached with.
    pub closed spec fn wf(&self) -> bool {
        &&& forall|i: int, j: int|
            0 <= i < j < self.entries@.len() ==> self.entries@[i].0@ != self.entries@[j].0@
        &&& forall|i: int|
            0 <= i < self.entries@.len() ==> (#[trigger] self.entries@[i].1)@
                == self.entries@[i].0@
    }

    /// Whether an index is registered under the given name.
    pub closed spec fn has_name(&self, name: Seq<char>) -> bool {
        exists|i: int| 0 <= i < self.entries@.len() && (#[trigger] self.entries@[i]).0@ == name
    }

    /// An empty catalog: no resident shards yet.
    pub fn new() -> (r: IndexCatalog)
        ensures
            r.wf(),
            forall|n: Seq<char>| !r.has_name(n),
    {
        IndexCatalog { entries: Vec::new() }
    }

    /// Registers a handle under the name it was attached with. A handle
    /// already registered under that name is replaced: the catalog keeps at
    /// most one handle per name.
    pub fn add_index(&mut self, handle: LocalIndex)
        requires
            old(self).wf(),
        ensures
            final(self).wf(),
            final(self).has_name(handle@),
            forall|n: Seq<char>| n != handle@ ==> final(self).has_name(n) == old(self).has_name(n),
    {
        let name = handle.get_name();
        let entry = Arc::new(handle);
        let mut i: usize = 0;
        while i < self.entries.len()
            invariant
                self.wf(),
                i <= self.entries@.len(),
                name@ == entry@,
                entry@ == handle@,
                forall|k: int| 0 <= k < i ==> (#[trigger] self.entries@[k]).0@ != name@,
                self.entries@ == old(self).entries@,
            decreases self.entries@.len() - i,
        {
            if self.entries[i].0 == name {
                let ghost e_old = self.entries@;
                self.entries[i] = (name, entry);
                proof {
                    let e_new = self.entries@;
                    assert(e_new =~= e_old.update(i as int, (name, entry)));
                    assert(e_new[i as int].0@ == e_old[i as int].0@);
                    assert forall|a: int, b: int|
                        0 <= a < b < e_new.len() implies e_new[a].0@ != e_new[b].0@ by {
                        assert(e_old[a].0@ != e_old[b].0@);
                    }
                    assert(self.has_name(handle@));
                    assert forall|n: Seq<char>| n != handle@ implies self.has_name(n) == old(
                        self,
                    ).has_name(n) by {
                        if self.has_name(n) {
                            let k = choose|k: int|
                                0 <= k < e_new.len() && (#[trigger] e_new[k]).0@ == n;
                            assert(e_old[k].0@ == n);
                        }
                        if old(self).has_name(n) {
                            let k = choose|k: int|
                                0 <= k < e_old.len() && (#[trigger] e_old[k]).0@ == n;
                            assert(e_new[k].0@ == n);
                        }
                    }
                }
                return ;
            }
            i += 1;
        }
        let ghost e_old = self.entries@;
        self.entries.push((name, entry));
        proof {
            let e_new = self.entries@;
            assert(e_new =~= e_old.push((name, entry)));
            assert(e_new[e_old.len() as int].0@ == handle@);
            assert(self.has_name(handle@));
            assert forall|n: Seq<char>| n != handle@ implies self.has_name(n) == old(
                self,
            ).has_name(n) by {
                if self.has_name(n) {
                    let k = choose|k: int| 0 <= k < e_new.len() && (#[trigger] e_new[k]).0@ == n;
                    assert(e_old[k].0@ == n);
                }
                if old(self).has_name(n) {
                    let k = choose|k: int| 0 <= k < e_old.len() && (#[trigger] e_old[k]).0@ == n;
                    assert(e_new[k].0@ == n);
                }
            }
        }
    }

    /// Checks whether an index with the given name is resident: a single
    /// in-memory lookup.
    pub fn has_index(&self, name: &String) -> (r: bool)
        requires
            self.wf(),
        ensures
            r == self.has_name(name@),
    {
        let mut i: usize = 0;
        while i < self.entries.len()
            invariant
                self.wf(),
                i <= self.entries@.len(),
                forall|k: int| 0 <= k < i ==> (#[trigger] self.entries@[k]).0@ != name@,
            decreases self.entries@.len() - i,
        {
            if self.entries[i].0 == *name {
                return true;
            }
            i += 1;
        }
        false
    }

    /// Resolves an index name to its handle: a single in-memory lookup,
    /// returning shared ownership of the handle, which the caller keeps
    /// using after releasing whatever lock guards the catalog.
    pub fn get_index(&self, name: &String) -> (r: Option<Arc<LocalIndex>>)
        requires
            self.wf(),
        ensures
            match r {
                Some(h) => self.has_name(name@) && h@ == name@,
                None => !self.has_name(name@),
            },
    {
        let mut i: usize = 0;
        while i < self.entries.len()
            invariant
                self.wf(),
                i <= self.entries@.len(),
                forall|k: int| 0 <= k < i ==> (#[trigger] self.entries@[k]).0@ != name@,
            decreases self.entries@.len() - i,
        {
            if self.entries[i].0 == *name {
                return Some(self.entries[i].1.clone());
            }
            i += 1;
        }
        None
    }
}

} // verus!
