//! The post store as a mathematical value: what its operations come to, and
//! what holds of them.

use vstd::prelude::*;

use super::super::ErrorView;
use super::super::exhausted;
use super::super::tag::TagView;
use super::BlogView;
use super::CreateBlogView;
use super::UpdateBlogView;

verus! {

/// The first of `tags` that has the identifier `id`, if one has.
pub open spec fn tag_of(tags: Seq<TagView>, id: int) -> Option<TagView>
    decreases tags.len(),
{
    if tags.len() == 0 {
        None
    } else if tags.first().id == id {
        Some(tags.first())
    } else {
        tag_of(tags.drop_first(), id)
    }
}

/// The tags that the identifiers `ids` stand for among `tags`, one for each
/// identifier and in their order; and `NotFound`, with the first identifier
/// that stands for none, where there is one.
pub open spec fn resolve(tags: Seq<TagView>, ids: Seq<int>) -> Result<Seq<TagView>, ErrorView>
    decreases ids.len(),
{
    if ids.len() == 0 {
        Ok(Seq::empty())
    } else {
        match resolve(tags, ids.drop_last()) {
            Ok(found) => match tag_of(tags, ids.last()) {
                Some(tag) => Ok(found.push(tag)),
                None => Err(ErrorView::NotFound(ids.last())),
            },
            Err(error) => Err(error),
        }
    }
}

/// Whether `tags[k]` is the first of `tags` that has the identifier `id`.
pub open spec fn is_first_tag(tags: Seq<TagView>, k: int, id: int) -> bool {
    &&& 0 <= k < tags.len()
    &&& tags[k].id == id
    &&& forall|j: int| 0 <= j < k ==> (#[trigger] tags[j]).id != id
}

/// Whether `ids[k]` is the first of `ids` that stands for none of `tags`.
pub open spec fn is_first_unknown(tags: Seq<TagView>, ids: Seq<int>, k: int) -> bool {
    &&& 0 <= k < ids.len()
    &&& tag_of(tags, ids[k]) is None
    &&& forall|i: int| 0 <= i < k ==> tag_of(tags, #[trigger] ids[i]) is Some
}

/// What `tag_of` finds: the first tag of the identifier, which is one of the
/// tags; and nothing only where no tag has the identifier.
pub proof fn lemma_tag_of(tags: Seq<TagView>, id: int)
    ensures
        match tag_of(tags, id) {
            Some(tag) => tags.contains(tag) && exists|k: int|
                is_first_tag(tags, k, id) && tags[k] == tag,
            None => forall|k: int| 0 <= k < tags.len() ==> (#[trigger] tags[k]).id != id,
        },
    decreases tags.len(),
{
    if tags.len() > 0 {
        if tags.first().id == id {
            assert(is_first_tag(tags, 0, id));
        } else {
            let rest = tags.drop_first();
            lemma_tag_of(rest, id);
            match tag_of(rest, id) {
                Some(tag) => {
                    let k = choose|k: int| is_first_tag(rest, k, id) && rest[k] == tag;
                    assert forall|j: int| 0 <= j < k + 1 implies (#[trigger] tags[j]).id != id by {
                        if j > 0 {
                            assert(rest[j - 1].id != id);
                        }
                    }
                },
                None => {
                    assert forall|k: int| 0 <= k < tags.len() implies (#[trigger] tags[k]).id
                        != id by {
                        if k > 0 {
                            assert(rest[k - 1].id != id);
                        }
                    }
                },
            }
        }
    }
}

/// What resolving comes to. It succeeds where every identifier stands for a
/// tag, and then hands out, for each identifier and in their order, the first
/// tag that has it: as many tags as identifiers, repeated where an identifier
/// repeats. Else it fails with `NotFound` and the first identifier that stands
/// for no tag.
pub proof fn lemma_resolve(tags: Seq<TagView>, ids: Seq<int>)
    ensures
        match resolve(tags, ids) {
            Ok(found) => {
                &&& found.len() == ids.len()
                &&& forall|i: int|
                    0 <= i < ids.len() ==> tag_of(tags, ids[i]) == Some(#[trigger] found[i])
                        && found[i].id == ids[i] && tags.contains(found[i])
            },
            Err(error) => exists|k: int|
                is_first_unknown(tags, ids, k) && error == ErrorView::NotFound(ids[k]),
        },
    decreases ids.len(),
{
    if ids.len() > 0 {
        let before = ids.drop_last();
        lemma_resolve(tags, before);
        lemma_tag_of(tags, ids.last());
        match resolve(tags, before) {
            Ok(found) => {
                if tag_of(tags, ids.last()) is None {
                    assert forall|i: int| 0 <= i < ids.len() - 1 implies tag_of(
                        tags,
                        #[trigger] ids[i],
                    ) is Some by {
                        assert(tag_of(tags, before[i]) == Some(found[i]));
                    }
                    assert(is_first_unknown(tags, ids, ids.len() - 1));
                }
            },
            Err(error) => {
                let k = choose|k: int|
                    is_first_unknown(tags, before, k) && error == ErrorView::NotFound(before[k]);
                assert forall|i: int| 0 <= i < k implies tag_of(
                    tags,
                    #[trigger] ids[i],
                ) is Some by {
                    assert(before[i] == ids[i]);
                }
                assert(is_first_unknown(tags, ids, k));
            },
        }
    }
}

/// A post store as a mathematical value: the posts by their identifiers, how
/// many identifiers were handed out so far, and the tags that posts can carry.
pub struct BlogTable {
    pub posts: Map<int, BlogView>,
    pub issued: int,
    pub tags: Seq<TagView>,
}

impl BlogTable {
    /// What holds of every post store: each post stands under its own
    /// identifier, which is one of those handed out; and each tag of each post
    /// is one of the tags that the store knows.
    pub open spec fn wf(self) -> bool {
        &&& self.posts.dom().finite()
        &&& 0 <= self.issued <= i32::MAX
        &&& forall|id: int| #[trigger]
            self.posts.contains_key(id) ==> 1 <= id <= self.issued && self.posts[id].id == id
        &&& forall|id: int, i: int|
            self.posts.contains_key(id) && 0 <= i < self.posts[id].tags.len()
                ==> self.tags.contains(#[trigger] self.posts[id].tags[i])
    }

    /// Finding the post `id`: `NotFound` where there is none.
    pub open spec fn find(self, id: int) -> Result<BlogView, ErrorView> {
        if self.posts.contains_key(id) {
            Ok(self.posts[id])
        } else {
            Err(ErrorView::NotFound(id))
        }
    }

    /// Whether `listing` holds the posts of the store, each once, the post with
    /// the greatest identifier first.
    pub open spec fn lists(self, listing: Seq<BlogView>) -> bool {
        &&& forall|i: int|
            0 <= i < listing.len() ==> self.posts.contains_key((#[trigger] listing[i]).id)
                && self.posts[listing[i].id] == listing[i]
        &&& forall|i: int, j: int|
            0 <= i < j < listing.len() ==> (#[trigger] listing[i]).id > (#[trigger] listing[j]).id
        &&& forall|id: int| #[trigger]
            self.posts.contains_key(id) ==> exists|i: int|
                0 <= i < listing.len() && (#[trigger] listing[i]).id == id
    }

    /// Creating a post. Its tags are those that the identifiers given stand
    /// for; where one stands for none, the creation fails with `NotFound` and
    /// that identifier. Else the post gets the next identifier, unless none is
    /// left. A creation that fails changes nothing.
    pub open spec fn create(self, payload: CreateBlogView) -> (
        BlogTable,
        Result<BlogView, ErrorView>,
    ) {
        match resolve(self.tags, payload.tags) {
            Ok(tags) => if self.issued >= i32::MAX {
                (self, Err(exhausted()))
            } else {
                let post = BlogView {
                    id: self.issued + 1,
                    title: payload.title,
                    body: payload.body,
                    tags,
                };
                (
                    BlogTable { posts: self.posts.insert(post.id, post), issued: post.id, ..self },
                    Ok(post),
                )
            },
            Err(error) => (self, Err(error)),
        }
    }

    /// Updating the post `id`: `NotFound` where there is none. Title and body
    /// become what is given, and stay where nothing is given. Where tag
    /// identifiers are given, the tags they stand for replace the post's tags,
    /// all of them; where one stands for none, the update fails with `NotFound`
    /// and that identifier. Where none are given, the tags stay. An update that
    /// fails changes nothing.
    pub open spec fn update(self, id: int, payload: UpdateBlogView) -> (
        BlogTable,
        Result<BlogView, ErrorView>,
    ) {
        if self.posts.contains_key(id) {
            let current = self.posts[id];
            let tags = match payload.tags {
                Some(ids) => resolve(self.tags, ids),
                None => Ok(current.tags),
            };
            match tags {
                Ok(tags) => {
                    let post = BlogView {
                        id,
                        title: match payload.title {
                            Some(title) => title,
                            None => current.title,
                        },
                        body: match payload.body {
                            Some(body) => body,
                            None => current.body,
                        },
                        tags,
                    };
                    (BlogTable { posts: self.posts.insert(id, post), ..self }, Ok(post))
                },
                Err(error) => (self, Err(error)),
            }
        } else {
            (self, Err(ErrorView::NotFound(id)))
        }
    }

    /// Deleting the post `id`, and with it its associations: `NotFound` where
    /// there is none.
    pub open spec fn delete(self, id: int) -> (BlogTable, Result<(), ErrorView>) {
        if self.posts.contains_key(id) {
            (BlogTable { posts: self.posts.remove(id), ..self }, Ok(()))
        } else {
            (self, Err(ErrorView::NotFound(id)))
        }
    }
}

impl BlogTable {
    /// Whether the identifier `id` was handed out and its post is gone.
    pub open spec fn retired(self, id: int) -> bool {
        1 <= id <= self.issued && !self.posts.contains_key(id)
    }
}

/// A well-formed store stays so under creation.
pub proof fn lemma_create_keeps_wf(table: BlogTable, payload: CreateBlogView)
    requires
        table.wf(),
    ensures
        table.create(payload).0.wf(),
{
    lemma_resolve(table.tags, payload.tags);
    let created = table.create(payload).0;
    assert forall|id: int, i: int|
        created.posts.contains_key(id) && 0 <= i < created.posts[id].tags.len()
            implies table.tags.contains(#[trigger] created.posts[id].tags[i]) by {
        if table.posts.contains_key(id) {
            assert(table.tags.contains(table.posts[id].tags[i]));
        }
    }
}

/// A well-formed store stays so under update.
pub proof fn lemma_update_keeps_wf(table: BlogTable, id: int, payload: UpdateBlogView)
    requires
        table.wf(),
    ensures
        table.update(id, payload).0.wf(),
{
    if payload.tags is Some {
        lemma_resolve(table.tags, payload.tags->Some_0);
    }
}

/// A well-formed store stays so under deletion.
pub proof fn lemma_delete_keeps_wf(table: BlogTable, id: int)
    requires
        table.wf(),
    ensures
        table.delete(id).0.wf(),
{
}

/// A post that was created is found under its identifier, as it was handed out.
pub proof fn lemma_created_post_is_found(table: BlogTable, payload: CreateBlogView)
    requires
        table.wf(),
    ensures
        ({
            let (after, created) = table.create(payload);
            created matches Ok(post) ==> after.find(post.id) == created
        }),
{
}

/// What a creation that succeeds hands out: a post under an identifier that no
/// post had before, with the title and the body given and the tags that the
/// identifiers given stand for; and the posts that were there stay as they
/// were.
pub proof fn lemma_created_post(table: BlogTable, payload: CreateBlogView)
    requires
        table.wf(),
    ensures
        ({
            let (after, created) = table.create(payload);
            created matches Ok(post) ==> {
                &&& !table.posts.contains_key(post.id)
                &&& post.title == payload.title
                &&& post.body == payload.body
                &&& resolve(table.tags, payload.tags) == Ok::<Seq<TagView>, ErrorView>(post.tags)
                &&& forall|other: int|
                    other != post.id ==> after.find(other) == table.find(other)
            }
        }),
{
}

/// An update that gives no title, no body and no tags hands out the post as it
/// is, and changes nothing.
pub proof fn lemma_empty_update_changes_nothing(table: BlogTable, id: int)
    requires
        table.wf(),
        table.posts.contains_key(id),
    ensures
        table.update(id, UpdateBlogView { title: None, body: None, tags: None }) == (
            table,
            table.find(id),
        ),
{
    let current = table.posts[id];
    assert(table.posts.insert(id, current) =~= table.posts);
}

/// What an update gives, the post has afterwards, and what it does not give
/// stays; the post is found as it was handed out, and the other posts stay as
/// they were.
pub proof fn lemma_updated_post(table: BlogTable, id: int, payload: UpdateBlogView)
    requires
        table.posts.contains_key(id),
    ensures
        ({
            let (after, updated) = table.update(id, payload);
            updated matches Ok(post) ==> {
                &&& post.id == id
                &&& post.title == match payload.title {
                    Some(title) => title,
                    None => table.posts[id].title,
                }
                &&& post.body == match payload.body {
                    Some(body) => body,
                    None => table.posts[id].body,
                }
                &&& payload.tags is None ==> post.tags == table.posts[id].tags
                &&& payload.tags matches Some(ids) ==> resolve(table.tags, ids) == Ok::<
                    Seq<TagView>,
                    ErrorView,
                >(post.tags)
                &&& after.find(id) == updated
                &&& forall|other: int| other != id ==> after.find(other) == table.find(other)
            }
        }),
{
}

/// An update that gives the empty sequence of tags succeeds, whatever tags the
/// post had, and hands out the post without tags; and so the post is found
/// afterwards.
pub proof fn lemma_empty_tags_replace_all(
    table: BlogTable,
    id: int,
    title: Option<Seq<char>>,
    body: Option<Seq<char>>,
)
    requires
        table.posts.contains_key(id),
    ensures
        ({
            let (after, updated) = table.update(
                id,
                UpdateBlogView { title, body, tags: Some(Seq::empty()) },
            );
            &&& updated matches Ok(post) && post.tags == Seq::<TagView>::empty()
            &&& after.find(id) == updated
        }),
{
}

/// After a post was deleted, finding it fails with `NotFound`; no listing of
/// the store holds it; and every other post, with its tags, is as it was.
pub proof fn lemma_deleted_post_is_gone(table: BlogTable, id: int)
    requires
        table.wf(),
        table.posts.contains_key(id),
    ensures
        ({
            let (after, result) = table.delete(id);
            &&& result == Ok::<(), ErrorView>(())
            &&& after.find(id) == Err::<BlogView, ErrorView>(ErrorView::NotFound(id))
            &&& after.retired(id)
            &&& forall|other: int| other != id ==> after.find(other) == table.find(other)
            &&& forall|listing: Seq<BlogView>, i: int|
                after.lists(listing) && 0 <= i < listing.len() ==> (#[trigger] listing[i]).id != id
                    && table.posts[listing[i].id] == listing[i]
        }),
{
}

/// The identifier of a post that is gone is given to no other post, so finding
/// it fails with `NotFound` after every further creation, update and deletion.
pub proof fn lemma_retired_stays(
    table: BlogTable,
    id: int,
    new: CreateBlogView,
    other: int,
    change: UpdateBlogView,
)
    requires
        table.wf(),
        table.retired(id),
    ensures
        table.find(id) == Err::<BlogView, ErrorView>(ErrorView::NotFound(id)),
        table.create(new).0.retired(id),
        table.update(other, change).0.retired(id),
        table.delete(other).0.retired(id),
{
}

/// On an identifier that no post has, finding, updating and deleting fail with
/// `NotFound` and change nothing; and a store without posts lists none.
pub proof fn lemma_absent_blog(
    table: BlogTable,
    id: int,
    change: UpdateBlogView,
    listing: Seq<BlogView>,
)
    requires
        !table.posts.contains_key(id),
    ensures
        table.find(id) == Err::<BlogView, ErrorView>(ErrorView::NotFound(id)),
        table.update(id, change) == (table, Err::<BlogView, ErrorView>(ErrorView::NotFound(id))),
        table.delete(id) == (table, Err::<(), ErrorView>(ErrorView::NotFound(id))),
        table.posts == Map::<int, BlogView>::empty() && table.lists(listing) ==> listing.len() == 0,
{
    if table.posts == Map::<int, BlogView>::empty() && table.lists(listing) && listing.len() > 0 {
        assert(table.posts.contains_key(listing[0].id));
    }
}

/// A store has one listing.
pub proof fn lemma_listing_is_unique(table: BlogTable, a: Seq<BlogView>, b: Seq<BlogView>)
    requires
        table.lists(a),
        table.lists(b),
    ensures
        a == b,
{
    lemma_listing_length(table, a, b);
    lemma_listing_length(table, b, a);
    assert forall|i: int| 0 <= i < a.len() implies a[i] == b[i] by {
        lemma_listing_rank(table, a, b, i);
        lemma_listing_rank(table, b, a, i);
    }
}

proof fn lemma_listing_rank(table: BlogTable, a: Seq<BlogView>, b: Seq<BlogView>, i: int)
    requires
        table.lists(a),
        table.lists(b),
        0 <= i < a.len(),
        i < b.len(),
    ensures
        a[i].id <= b[i].id,
    decreases i,
{
    // The post of `a[i]` stands in `b`, and not before `i`: the posts of `b` before `i` are
    // greater than those of `a` before `i`, which are greater than `a[i]`.
    let j = choose|j: int| 0 <= j < b.len() && (#[trigger] b[j]).id == a[i].id;
    if j < i {
        lemma_listing_rank(table, a, b, j);
    }
}

proof fn lemma_listing_length(table: BlogTable, a: Seq<BlogView>, b: Seq<BlogView>)
    requires
        table.lists(a),
        table.lists(b),
    ensures
        b.len() <= a.len(),
{
    if a.len() < b.len() {
        let extra = b[a.len() as int];
        let j = choose|j: int| 0 <= j < a.len() && (#[trigger] a[j]).id == extra.id;
        lemma_listing_rank(table, b, a, j);
        lemma_listing_rank(table, a, b, j);
    }
}

} // verus!
