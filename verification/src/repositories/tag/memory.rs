//! The tag store that lives in memory.

use std::collections::HashMap;
use vstd::prelude::*;

use super::super::RepositoryError;
use super::super::result_view;
use super::lemma_create_keeps_wf;
use super::lemma_delete_keeps_wf;
use super::Tag;
use super::tag_views;
use super::TagRepository;
use super::TagTable;
use super::TagView;

verus! {

/// The tags of a map, each as a mathematical value, by mathematical
/// identifiers.
pub open spec fn table_view(store: Map<i32, Tag>) -> Map<int, TagView> {
    Map::new(
        |id: int| i32::MIN <= id <= i32::MAX && store.contains_key(id as i32),
        |id: int| store[id as i32]@,
    )
}

/// A tag store in memory.
pub struct TagRepositoryForMemory {
    store: HashMap<i32, Tag>,
    issued: i32,
    rejects_duplicates: bool,
}

impl View for TagRepositoryForMemory {
    type V = TagTable;

    closed spec fn view(&self) -> TagTable {
        TagTable {
            tags: table_view(self.store@),
            issued: self.issued as int,
            rejects_duplicates: self.rejects_duplicates,
        }
    }
}

impl TagRepositoryForMemory {
    #[verifier::type_invariant]
    spec fn well_formed(self) -> bool {
        self@.wf()
    }

    /// An empty store that hands out the tag that has a name, where one is
    /// created under a name that is taken.
    pub fn new() -> (store: Self)
        ensures
            store@ == (TagTable { tags: Map::empty(), issued: 0, rejects_duplicates: false }),
            store@.wf(),
    {
        let store = HashMap::new();
        proof {
            assert(table_view(store@) =~= Map::<int, TagView>::empty());
        }
        TagRepositoryForMemory { store, issued: 0, rejects_duplicates: false }
    }

    /// An empty store that fails with `Duplicate`, as the persistent store
    /// does, where a tag is created under a name that is taken.
    pub fn rejecting_duplicates() -> (store: Self)
        ensures
            store@ == (TagTable { tags: Map::empty(), issued: 0, rejects_duplicates: true }),
            store@.wf(),
    {
        let store = HashMap::new();
        proof {
            assert(table_view(store@) =~= Map::<int, TagView>::empty());
        }
        TagRepositoryForMemory { store, issued: 0, rejects_duplicates: true }
    }

    /// The tag of the name `name`, if the store has one.
    fn find_by_name(&self, name: &String) -> (found: Option<Tag>)
        ensures
            self@.wf(),
            match found {
                Some(tag) => self@.named(name@) == Some(tag@),
                None => self@.named(name@) is None,
            },
    {
        proof {
            use_type_invariant(self);
        }
        let mut id: i32 = 0;
        while id < self.issued
            invariant
                0 <= id <= self.issued,
                self@.wf(),
                forall|k: int| 1 <= k <= id ==> !self@.names(k, name@),
            decreases self.issued - id,
        {
            id = id + 1;
            match self.store.get(&id) {
                Some(tag) => {
                    if tag.name == *name {
                        proof {
                            assert(self@.names(id as int, name@));
                        }
                        return Some(tag.clone());
                    }
                },
                None => {},
            }
        }
        None
    }
}

impl TagRepositoryForMemory {
    /// Puts `tag` into the table, as the tag that got the identifier `id`.
    fn put(&mut self, id: i32, tag: Tag)
        requires
            (TagTable {
                tags: old(self)@.tags.insert(id as int, tag@),
                issued: id as int,
                ..old(self)@
            }).wf(),
        ensures
            final(self)@ == (TagTable {
                tags: old(self)@.tags.insert(id as int, tag@),
                issued: id as int,
                ..old(self)@
            }),
    {
        // The table is taken out whole and put back whole: the store is well-formed at
        // every moment in between.
        let mut taken = TagRepositoryForMemory::new();
        std::mem::swap(self, &mut taken);
        let TagRepositoryForMemory { mut store, issued: _, rejects_duplicates } = taken;
        proof {
            assert(table_view(store@.insert(id, tag)) =~= table_view(store@).insert(
                id as int,
                tag@,
            ));
        }
        store.insert(id, tag);
        *self = TagRepositoryForMemory { store, issued: id, rejects_duplicates };
    }

    /// Takes the tag `id` out of the table.
    fn take(&mut self, id: i32)
        requires
            (TagTable { tags: old(self)@.tags.remove(id as int), ..old(self)@ }).wf(),
        ensures
            final(self)@ == (TagTable { tags: old(self)@.tags.remove(id as int), ..old(self)@ }),
    {
        let mut taken = TagRepositoryForMemory::new();
        std::mem::swap(self, &mut taken);
        let TagRepositoryForMemory { mut store, issued, rejects_duplicates } = taken;
        proof {
            assert(table_view(store@.remove(id)) =~= table_view(store@).remove(id as int));
        }
        store.remove(&id);
        *self = TagRepositoryForMemory { store, issued, rejects_duplicates };
    }
}

impl TagRepository for TagRepositoryForMemory {
    open spec fn table(&self) -> TagTable {
        self@
    }

    fn create(&mut self, name: String) -> (result: Result<Tag, RepositoryError>)
        ensures
            (final(self)@, result_view(result)) == old(self)@.create(name@),
    {
        let ghost before = self@;
        match self.find_by_name(&name) {
            Some(tag) => {
                if self.rejects_duplicates {
                    Err(RepositoryError::Duplicate(tag.id))
                } else {
                    Ok(tag)
                }
            },
            None => {
                if self.issued == i32::MAX {
                    Err(RepositoryError::exhausted())
                } else {
                    let id = self.issued + 1;
                    let tag = Tag { id, name };
                    proof {
                        lemma_create_keeps_wf(before, tag@.name);
                    }
                    self.put(id, tag.clone());
                    Ok(tag)
                }
            },
        }
    }

    fn all(&self) -> (result: Result<Vec<Tag>, RepositoryError>)
        ensures
            result is Ok,
    {
        proof {
            use_type_invariant(self);
        }
        let mut listing: Vec<Tag> = Vec::new();
        let mut id: i32 = 0;
        while id < self.issued
            invariant
                0 <= id <= self.issued,
                self@.wf(),
                forall|i: int|
                    0 <= i < listing.len() ==> self@.tags.contains_key(
                        (#[trigger] listing[i]).id as int,
                    ) && self@.tags[listing[i].id as int] == listing[i]@ && listing[i].id <= id,
                forall|i: int, j: int|
                    0 <= i < j < listing.len() ==> (#[trigger] listing[i]).id < (
                    #[trigger] listing[j]).id,
                forall|k: int|
                    1 <= k <= id && #[trigger] self@.tags.contains_key(k) ==> exists|i: int|
                        0 <= i < listing.len() && (#[trigger] listing[i]).id == k,
            decreases self.issued - id,
        {
            id = id + 1;
            let ghost before = listing@;
            match self.store.get(&id) {
                Some(tag) => {
                    proof {
                        assert(self@.tags[id as int] == tag@);
                    }
                    listing.push(tag.clone());
                    proof {
                        assert(listing[before.len() as int].id == id);
                        assert forall|k: int|
                            1 <= k <= id && #[trigger] self@.tags.contains_key(k) implies exists|
                            i: int,
                        |
                            0 <= i < listing.len() && (#[trigger] listing[i]).id == k by {
                            if k < id {
                                let i = choose|i: int|
                                    0 <= i < before.len() && (#[trigger] before[i]).id == k;
                                assert(listing[i].id == k);
                            }
                        }
                    }
                },
                None => {},
            }
        }
        proof {
            let views = tag_views(listing@);
            assert forall|k: int| #[trigger] self@.tags.contains_key(k) implies exists|i: int|
                0 <= i < views.len() && (#[trigger] views[i]).id == k by {
                let i = choose|i: int| 0 <= i < listing.len() && (#[trigger] listing[i]).id == k;
                assert(views[i].id == k);
            }
        }
        Ok(listing)
    }

    fn delete(&mut self, id: i32) -> (result: Result<(), RepositoryError>)
        ensures
            (final(self)@, result_view(result)) == old(self)@.delete(id as int),
    {
        proof {
            use_type_invariant(&*self);
        }
        let ghost before = self@;
        if self.store.contains_key(&id) {
            proof {
                lemma_delete_keeps_wf(before, id as int);
            }
            self.take(id);
            Ok(())
        } else {
            Err(RepositoryError::NotFound(id))
        }
    }
}

} // verus!
