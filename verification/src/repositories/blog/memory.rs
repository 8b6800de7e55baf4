//! The post store that lives in memory.
//!
//! It owns its table. A reader borrows the store, a writer borrows it
//! exclusively, and a writer has made all of its change, or none of it, when
//! it returns.

use std::collections::HashMap;
use vstd::prelude::*;

use super::super::ErrorView;
use super::super::RepositoryError;
use super::super::result_view;
use super::super::tag::listing_view;
use super::super::tag::Tag;
use super::super::tag::tag_views;
use super::super::tag::TagView;
use super::blog_views;
use super::BlogEntity;
use super::BlogRepository;
use super::BlogView;
use super::CreateBlog;
use super::id_views;
use super::table::BlogTable;
use super::table::lemma_create_keeps_wf;
use super::table::lemma_delete_keeps_wf;
use super::table::lemma_update_keeps_wf;
use super::table::resolve;
use super::table::tag_of;
use super::UpdateBlog;

verus! {

/// The posts of a map, each as a mathematical value, by mathematical
/// identifiers.
pub open spec fn table_view(store: Map<i32, BlogEntity>) -> Map<int, BlogView> {
    Map::new(
        |id: int| i32::MIN <= id <= i32::MAX && store.contains_key(id as i32),
        |id: int| store[id as i32]@,
    )
}

/// A post store in memory, with the tags that its posts can carry.
pub struct BlogRepositoryForMemory {
    store: HashMap<i32, BlogEntity>,
    issued: i32,
    tags: Vec<Tag>,
}

impl View for BlogRepositoryForMemory {
    type V = BlogTable;

    closed spec fn view(&self) -> BlogTable {
        BlogTable {
            posts: table_view(self.store@),
            issued: self.issued as int,
            tags: tag_views(self.tags@),
        }
    }
}

proof fn lemma_resolve_fails_for_good(tags: Seq<TagView>, ids: Seq<int>, k: int)
    requires
        0 <= k <= ids.len(),
        resolve(tags, ids.take(k)) is Err,
    ensures
        resolve(tags, ids) == resolve(tags, ids.take(k)),
    decreases ids.len() - k,
{
    if k < ids.len() {
        assert(ids.take(k + 1).drop_last() =~= ids.take(k));
        lemma_resolve_fails_for_good(tags, ids, k + 1);
    } else {
        assert(ids.take(k) =~= ids);
    }
}

impl BlogRepositoryForMemory {
    #[verifier::type_invariant]
    spec fn well_formed(self) -> bool {
        self@.wf()
    }

    /// An empty store whose posts can carry the tags `tags`.
    pub fn new(tags: Vec<Tag>) -> (store: Self)
        ensures
            store@ == (BlogTable { posts: Map::empty(), issued: 0, tags: tag_views(tags@) }),
            store@.wf(),
    {
        let store = HashMap::new();
        proof {
            assert(table_view(store@) =~= Map::<int, BlogView>::empty());
        }
        BlogRepositoryForMemory { store, issued: 0, tags }
    }

    /// The first tag of the store that has the identifier `id`.
    fn tag(&self, id: i32) -> (found: Option<Tag>)
        ensures
            match found {
                Some(tag) => tag_of(self@.tags, id as int) == Some(tag@),
                None => tag_of(self@.tags, id as int) is None,
            },
    {
        let ghost tags = tag_views(self.tags@);
        let mut i: usize = 0;
        proof {
            assert(tags.skip(0) =~= tags);
        }
        while i < self.tags.len()
            invariant
                i <= self.tags.len(),
                tags == tag_views(self.tags@),
                tag_of(tags, id as int) == tag_of(tags.skip(i as int), id as int),
            decreases self.tags.len() - i,
        {
            proof {
                assert(tags.skip(i as int).drop_first() =~= tags.skip(i + 1));
            }
            if self.tags[i].id == id {
                return Some(self.tags[i].clone());
            }
            i += 1;
        }
        None
    }

    /// The tags that the identifiers stand for, in their order.
    fn resolve_tags(&self, ids: &Vec<i32>) -> (result: Result<Vec<Tag>, RepositoryError>)
        ensures
            listing_view(result) == resolve(self@.tags, id_views(ids@)),
    {
        let ghost wanted = id_views(ids@);
        let mut found: Vec<Tag> = Vec::new();
        let mut k: usize = 0;
        proof {
            assert(tag_views(found@) =~= Seq::<TagView>::empty());
        }
        while k < ids.len()
            invariant
                k <= ids.len(),
                wanted == id_views(ids@),
                resolve(self@.tags, wanted.take(k as int)) == Ok::<Seq<TagView>, ErrorView>(
                    tag_views(found@),
                ),
            decreases ids.len() - k,
        {
            proof {
                assert(wanted.take(k + 1).drop_last() =~= wanted.take(k as int));
            }
            match self.tag(ids[k]) {
                Some(tag) => {
                    let ghost before = found@;
                    found.push(tag);
                    proof {
                        assert(tag_views(found@) =~= tag_views(before).push(tag@));
                    }
                },
                None => {
                    proof {
                        lemma_resolve_fails_for_good(self@.tags, wanted, k + 1);
                    }
                    return Err(RepositoryError::NotFound(ids[k]));
                },
            }
            k += 1;
        }
        proof {
            assert(wanted.take(k as int) =~= wanted);
        }
        Ok(found)
    }
}

impl BlogRepositoryForMemory {
    /// Puts `post` into the table under the identifier `id`, `issued` being
    /// what was handed out by now.
    fn put(&mut self, id: i32, post: BlogEntity, issued: i32)
        requires
            (BlogTable {
                posts: old(self)@.posts.insert(id as int, post@),
                issued: issued as int,
                ..old(self)@
            }).wf(),
        ensures
            final(self)@ == (BlogTable {
                posts: old(self)@.posts.insert(id as int, post@),
                issued: issued as int,
                ..old(self)@
            }),
    {
        // The table is taken out whole and put back whole: the store is well-formed at
        // every moment in between.
        let mut taken = BlogRepositoryForMemory::new(Vec::new());
        std::mem::swap(self, &mut taken);
        let BlogRepositoryForMemory { mut store, issued: _, tags } = taken;
        proof {
            assert(table_view(store@.insert(id, post)) =~= table_view(store@).insert(
                id as int,
                post@,
            ));
        }
        store.insert(id, post);
        *self = BlogRepositoryForMemory { store, issued, tags };
    }

    /// Takes the post `id` out of the table.
    fn take(&mut self, id: i32)
        requires
            (BlogTable { posts: old(self)@.posts.remove(id as int), ..old(self)@ }).wf(),
        ensures
            final(self)@ == (BlogTable { posts: old(self)@.posts.remove(id as int), ..old(self)@ }),
    {
        let mut taken = BlogRepositoryForMemory::new(Vec::new());
        std::mem::swap(self, &mut taken);
        let BlogRepositoryForMemory { mut store, issued, tags } = taken;
        proof {
            assert(table_view(store@.remove(id)) =~= table_view(store@).remove(id as int));
        }
        store.remove(&id);
        *self = BlogRepositoryForMemory { store, issued, tags };
    }
}

impl BlogRepository for BlogRepositoryForMemory {
    open spec fn table(&self) -> BlogTable {
        self@
    }

    fn create(&mut self, payload: CreateBlog) -> (result: Result<BlogEntity, RepositoryError>)
        ensures
            (final(self)@, result_view(result)) == old(self)@.create(payload@),
    {
        proof {
            use_type_invariant(&*self);
        }
        let ghost before = self@;
        let ghost wanted = payload@;
        match self.resolve_tags(&payload.tags) {
            Ok(tags) => {
                if self.issued == i32::MAX {
                    Err(RepositoryError::exhausted())
                } else {
                    let id = self.issued + 1;
                    let post = BlogEntity { id, title: payload.title, body: payload.body, tags };
                    proof {
                        lemma_create_keeps_wf(before, wanted);
                    }
                    self.put(id, post.clone(), id);
                    Ok(post)
                }
            },
            Err(error) => Err(error),
        }
    }

    fn find(&self, id: i32) -> (result: Result<BlogEntity, RepositoryError>)
        ensures
            result_view(result) == self@.find(id as int),
    {
        proof {
            use_type_invariant(self);
        }
        match self.store.get(&id) {
            Some(post) => Ok(post.clone()),
            None => Err(RepositoryError::NotFound(id)),
        }
    }

    fn all(&self) -> (result: Result<Vec<BlogEntity>, RepositoryError>)
        ensures
            result is Ok,
    {
        proof {
            use_type_invariant(self);
        }
        let mut listing: Vec<BlogEntity> = Vec::new();
        let mut id: i32 = self.issued;
        while id > 0
            invariant
                0 <= id <= self.issued,
                self@.wf(),
                forall|i: int|
                    0 <= i < listing.len() ==> self@.posts.contains_key(
                        (#[trigger] listing[i]).id as int,
                    ) && self@.posts[listing[i].id as int] == listing[i]@ && listing[i].id > id,
                forall|i: int, j: int|
                    0 <= i < j < listing.len() ==> (#[trigger] listing[i]).id > (
                    #[trigger] listing[j]).id,
                forall|k: int|
                    id < k && #[trigger] self@.posts.contains_key(k) ==> exists|i: int|
                        0 <= i < listing.len() && (#[trigger] listing[i]).id == k,
            decreases id,
        {
            let ghost before = listing@;
            match self.store.get(&id) {
                Some(post) => {
                    proof {
                        assert(self@.posts[id as int] == post@);
                    }
                    listing.push(post.clone());
                    proof {
                        assert(listing[before.len() as int].id == id);
                        assert forall|k: int|
                            id - 1 < k && #[trigger] self@.posts.contains_key(k) implies exists|
                            i: int,
                        |
                            0 <= i < listing.len() && (#[trigger] listing[i]).id == k by {
                            if k > id {
                                let i = choose|i: int|
                                    0 <= i < before.len() && (#[trigger] before[i]).id == k;
                                assert(listing[i].id == k);
                            }
                        }
                    }
                },
                None => {},
            }
            id = id - 1;
        }
        proof {
            let views = blog_views(listing@);
            assert forall|k: int| #[trigger] self@.posts.contains_key(k) implies exists|i: int|
                0 <= i < views.len() && (#[trigger] views[i]).id == k by {
                let i = choose|i: int| 0 <= i < listing.len() && (#[trigger] listing[i]).id == k;
                assert(views[i].id == k);
            }
        }
        Ok(listing)
    }

    fn update(&mut self, id: i32, payload: UpdateBlog) -> (result: Result<
        BlogEntity,
        RepositoryError,
    >)
        ensures
            (final(self)@, result_view(result)) == old(self)@.update(id as int, payload@),
    {
        proof {
            use_type_invariant(&*self);
        }
        let ghost before = self@;
        let ghost wanted = payload@;
        let current = match self.store.get(&id) {
            Some(post) => post.clone(),
            None => {
                return Err(RepositoryError::NotFound(id));
            },
        };
        let tags = match payload.tags {
            Some(ids) => match self.resolve_tags(&ids) {
                Ok(tags) => tags,
                Err(error) => {
                    return Err(error);
                },
            },
            None => current.tags,
        };
        let title = match payload.title {
            Some(title) => title,
            None => current.title,
        };
        let body = match payload.body {
            Some(body) => body,
            None => current.body,
        };
        let post = BlogEntity { id, title, body, tags };
        proof {
            lemma_update_keeps_wf(before, id as int, wanted);
        }
        let issued = self.issued;
        self.put(id, post.clone(), issued);
        Ok(post)
    }

    fn delete(&mut self, id: i32) -> (result: Result<(), RepositoryError>)
        ensures
            (final(self)@, result_view(result)) == old(self)@.delete(id as int),
    {
        proof {
            use_type_invariant(&*self);
        }
        let ghost before = self@;
        if self.store.contains_key(&id) {
            proof {
                lemma_delete_keeps_wf(before, id as int);
            }
            self.take(id);
            Ok(())
        } else {
            Err(RepositoryError::NotFound(id))
        }
    }
}

} // verus!
