//! Tags: named labels that posts carry.

use vstd::prelude::*;

pub mod memory;
pub mod persistent;

use super::ErrorView;
use super::exhausted;
use super::keeps_to;
use super::RepositoryError;
use super::result_view;

verus! {

/// A tag as a mathematical value: its identifier and the characters of its
/// name.
pub struct TagView {
    pub id: int,
    pub name: Seq<char>,
}

/// A named label. Its identity is `id`.
#[derive(Debug, PartialEq, Eq)]
pub struct Tag {
    pub id: i32,
    pub name: String,
}

impl View for Tag {
    type V = TagView;

    open spec fn view(&self) -> TagView {
        TagView { id: self.id as int, name: self.name@ }
    }
}

/// The identifier of a tag with a name for it. A tag keeps the name under which
/// it was created, so no operation of a store takes this value.
#[derive(Debug, PartialEq, Eq)]
pub struct UpdateTag {
    pub id: i32,
    pub name: String,
}

impl View for UpdateTag {
    type V = TagView;

    open spec fn view(&self) -> TagView {
        TagView { id: self.id as int, name: self.name@ }
    }
}

impl Clone for UpdateTag {
    fn clone(&self) -> (copy: Self)
        ensures
            copy == *self,
    {
        UpdateTag { id: self.id, name: self.name.clone() }
    }
}

/// The tags of a sequence, each as a mathematical value.
pub open spec fn tag_views(tags: Seq<Tag>) -> Seq<TagView> {
    tags.map_values(|tag: Tag| tag@)
}

/// The result of listing tags, as a mathematical value.
pub open spec fn listing_view(result: Result<Vec<Tag>, RepositoryError>) -> Result<
    Seq<TagView>,
    ErrorView,
> {
    match result {
        Ok(tags) => Ok(tag_views(tags@)),
        Err(error) => Err(error@),
    }
}

impl Clone for Tag {
    fn clone(&self) -> (copy: Self)
        ensures
            copy == *self,
    {
        Tag { id: self.id, name: self.name.clone() }
    }
}

impl Tag {
    pub fn new(id: i32, name: String) -> (tag: Self)
        ensures
            tag.id == id,
            tag.name == name,
    {
        Tag { id, name }
    }
}

/// A tag store as a mathematical value: the tags by their identifiers, how many
/// identifiers were handed out so far, and what the store does with a name that
/// is taken.
pub struct TagTable {
    pub tags: Map<int, TagView>,
    pub issued: int,
    pub rejects_duplicates: bool,
}

impl TagTable {
    /// What holds of every tag store: each tag stands under its own identifier,
    /// which is one of those handed out; and no two tags have the same name.
    pub open spec fn wf(self) -> bool {
        &&& self.tags.dom().finite()
        &&& 0 <= self.issued <= i32::MAX
        &&& forall|id: int| #[trigger]
            self.tags.contains_key(id) ==> 1 <= id <= self.issued && self.tags[id].id == id
        &&& forall|a: int, b: int|
            self.tags.contains_key(a) && self.tags.contains_key(b) && (#[trigger] self.tags[a]).name
                == (#[trigger] self.tags[b]).name ==> a == b
    }

    /// Whether the tag `id` has the name `name`.
    pub open spec fn names(self, id: int, name: Seq<char>) -> bool {
        self.tags.contains_key(id) && self.tags[id].name == name
    }

    /// The tag of the name `name`, if there is one.
    pub open spec fn named(self, name: Seq<char>) -> Option<TagView> {
        if exists|id: int| self.names(id, name) {
            Some(self.tags[choose|id: int| self.names(id, name)])
        } else {
            None
        }
    }

    /// Creating a tag. Where a tag has the name already, nothing changes: a
    /// store that rejects duplicates fails with `Duplicate` and that tag's
    /// identifier, and another hands that tag out. Where none has, the tag gets
    /// the next identifier, unless none is left.
    pub open spec fn create(self, name: Seq<char>) -> (TagTable, Result<TagView, ErrorView>) {
        match self.named(name) {
            Some(tag) => if self.rejects_duplicates {
                (self, Err(ErrorView::Duplicate(tag.id)))
            } else {
                (self, Ok(tag))
            },
            None => if self.issued >= i32::MAX {
                (self, Err(exhausted()))
            } else {
                let tag = TagView { id: self.issued + 1, name };
                (
                    TagTable { tags: self.tags.insert(tag.id, tag), issued: tag.id, ..self },
                    Ok(tag),
                )
            },
        }
    }

    /// Whether `listing` holds the tags of the store, each once, the tag with
    /// the least identifier first.
    pub open spec fn lists(self, listing: Seq<TagView>) -> bool {
        &&& forall|i: int|
            0 <= i < listing.len() ==> self.tags.contains_key((#[trigger] listing[i]).id)
                && self.tags[listing[i].id] == listing[i]
        &&& forall|i: int, j: int|
            0 <= i < j < listing.len() ==> (#[trigger] listing[i]).id < (#[trigger] listing[j]).id
        &&& forall|id: int| #[trigger]
            self.tags.contains_key(id) ==> exists|i: int|
                0 <= i < listing.len() && (#[trigger] listing[i]).id == id
    }

    /// Deleting the tag `id`: `NotFound` where there is none.
    pub open spec fn delete(self, id: int) -> (TagTable, Result<(), ErrorView>) {
        if self.tags.contains_key(id) {
            (TagTable { tags: self.tags.remove(id), ..self }, Ok(()))
        } else {
            (self, Err(ErrorView::NotFound(id)))
        }
    }
}

/// A well-formed store stays so under creation.
pub proof fn lemma_create_keeps_wf(table: TagTable, name: Seq<char>)
    requires
        table.wf(),
    ensures
        table.create(name).0.wf(),
{
    lemma_named(table, name);
    let created = table.create(name).0;
    if table.named(name) is None && table.issued < i32::MAX {
        assert forall|a: int, b: int|
            created.tags.contains_key(a) && created.tags.contains_key(b) && (
            #[trigger] created.tags[a]).name == (#[trigger] created.tags[b]).name implies a
            == b by {
            if a == created.issued && b != a {
                assert(table.names(b, name));
            }
            if b == created.issued && a != b {
                assert(table.names(a, name));
            }
        }
    }
}

/// A well-formed store stays so under deletion.
pub proof fn lemma_delete_keeps_wf(table: TagTable, id: int)
    requires
        table.wf(),
    ensures
        table.delete(id).0.wf(),
{
}

/// In a well-formed store the tag of a name is the one tag that has it.
pub proof fn lemma_named(table: TagTable, name: Seq<char>)
    requires
        table.wf(),
    ensures
        match table.named(name) {
            Some(tag) => table.names(tag.id, name) && table.tags[tag.id] == tag && forall|id: int|
                table.names(id, name) ==> id == tag.id,
            None => forall|id: int| !table.names(id, name),
        },
{
}

/// What a creation under a free name hands out: a tag of that name under an
/// identifier that no tag had before; and the tags that were there stay as they
/// were.
pub proof fn lemma_created_tag(table: TagTable, name: Seq<char>)
    requires
        table.wf(),
        table.named(name) is None,
    ensures
        ({
            let (after, created) = table.create(name);
            created matches Ok(tag) ==> {
                &&& tag.name == name
                &&& !table.tags.contains_key(tag.id)
                &&& after.tags.contains_key(tag.id) && after.tags[tag.id] == tag
                &&& forall|other: int|
                    other != tag.id ==> after.tags.contains_key(other) == table.tags.contains_key(
                        other,
                    ) && after.tags[other] == table.tags[other]
            }
        }),
{
}

/// In a store that rejects duplicates, once a tag was created under a name,
/// creating another under that name fails with `Duplicate` and the identifier
/// of the first, changes nothing, and leaves that tag the only one of its name.
pub proof fn lemma_second_creation_is_rejected(table: TagTable, name: Seq<char>)
    requires
        table.wf(),
        table.rejects_duplicates,
        table.create(name).1 is Ok,
    ensures
        ({
            let (first, created) = table.create(name);
            let (second, again) = first.create(name);
            &&& again == Err::<TagView, ErrorView>(ErrorView::Duplicate(created->Ok_0.id))
            &&& second == first
            &&& forall|id: int| second.names(id, name) <==> id == created->Ok_0.id
        }),
{
    lemma_named(table, name);
    lemma_create_keeps_wf(table, name);
    let (first, created) = table.create(name);
    let tag = created->Ok_0;
    assert(first.names(tag.id, name));
    lemma_named(first, name);
}

/// The other answer to a name that is taken. In a store that does not reject
/// duplicates, once a tag was created under a name, creating another under that
/// name hands out the first, changes nothing, and leaves that tag the only one
/// of its name.
pub proof fn lemma_second_creation_is_reused(table: TagTable, name: Seq<char>)
    requires
        table.wf(),
        !table.rejects_duplicates,
        table.create(name).1 is Ok,
    ensures
        ({
            let (first, created) = table.create(name);
            let (second, again) = first.create(name);
            &&& again == created
            &&& second == first
            &&& forall|id: int| second.names(id, name) <==> id == created->Ok_0.id
        }),
{
    lemma_named(table, name);
    lemma_create_keeps_wf(table, name);
    let (first, created) = table.create(name);
    let tag = created->Ok_0;
    assert(first.names(tag.id, name));
    lemma_named(first, name);
}

/// After a tag was deleted it is not there: deleting it again fails with
/// `NotFound`, no listing holds it, and the other tags are as they were.
pub proof fn lemma_deleted_tag_is_gone(table: TagTable, id: int)
    requires
        table.wf(),
        table.tags.contains_key(id),
    ensures
        ({
            let (after, result) = table.delete(id);
            &&& result == Ok::<(), ErrorView>(())
            &&& after.delete(id) == (after, Err::<(), ErrorView>(ErrorView::NotFound(id)))
            &&& forall|other: int|
                other != id ==> after.tags.contains_key(other) == table.tags.contains_key(other)
                    && after.tags[other] == table.tags[other]
            &&& forall|listing: Seq<TagView>, i: int|
                after.lists(listing) && 0 <= i < listing.len() ==> (#[trigger] listing[i]).id != id
        }),
{
}

/// Deleting a tag that is not there fails with `NotFound` and changes nothing,
/// and an empty store lists no tag.
pub proof fn lemma_absent_tag(table: TagTable, id: int, listing: Seq<TagView>)
    requires
        !table.tags.contains_key(id),
    ensures
        table.delete(id) == (table, Err::<(), ErrorView>(ErrorView::NotFound(id))),
        table.tags == Map::<int, TagView>::empty() && table.lists(listing) ==> listing.len() == 0,
{
    if table.tags == Map::<int, TagView>::empty() && table.lists(listing) && listing.len() > 0 {
        assert(table.tags.contains_key(listing[0].id));
    }
}

/// A store has one listing.
pub proof fn lemma_listing_is_unique(table: TagTable, a: Seq<TagView>, b: Seq<TagView>)
    requires
        table.lists(a),
        table.lists(b),
    ensures
        a == b,
{
    lemma_listing_length(table, a, b);
    lemma_listing_length(table, b, a);
    assert forall|i: int| 0 <= i < a.len() implies a[i] == b[i] by {
        lemma_listing_rank(table, a, b, i);
        lemma_listing_rank(table, b, a, i);
    }
}

proof fn lemma_listing_rank(table: TagTable, a: Seq<TagView>, b: Seq<TagView>, i: int)
    requires
        table.lists(a),
        table.lists(b),
        0 <= i < a.len(),
        i < b.len(),
    ensures
        a[i].id >= b[i].id,
    decreases i,
{
    // The tag of `a[i]` stands in `b`, and not before `i`: the tags of `b` before `i` are
    // less than those of `a` before `i`, which are less than `a[i]`.
    let j = choose|j: int| 0 <= j < b.len() && (#[trigger] b[j]).id == a[i].id;
    if j < i {
        lemma_listing_rank(table, a, b, j);
    }
}

proof fn lemma_listing_length(table: TagTable, a: Seq<TagView>, b: Seq<TagView>)
    requires
        table.lists(a),
        table.lists(b),
    ensures
        b.len() <= a.len(),
{
    if a.len() < b.len() {
        let extra = b[a.len() as int];
        let j = choose|j: int| 0 <= j < a.len() && (#[trigger] a[j]).id == extra.id;
        lemma_listing_rank(table, b, a, j);
        lemma_listing_rank(table, a, b, j);
    }
}

/// The operations of a tag store. What each comes to is said by [`TagTable`]; a
/// store keeps to it, and can besides fail with `Unexpected` at any time, in
/// which case it stays as it was.
pub trait TagRepository {
    /// The store as a mathematical value.
    spec fn table(&self) -> TagTable;

    /// Creates a tag of this name.
    fn create(&mut self, name: String) -> (result: Result<Tag, RepositoryError>)
        ensures
            keeps_to(
                old(self).table(),
                final(self).table(),
                result_view(result),
                old(self).table().create(name@),
            ),
            final(self).table().wf(),
    ;

    /// All tags, the tag with the least identifier first.
    fn all(&self) -> (result: Result<Vec<Tag>, RepositoryError>)
        ensures
            match result {
                Ok(tags) => self.table().lists(tag_views(tags@)),
                Err(error) => error@ is Unexpected,
            },
            self.table().wf(),
    ;

    /// Deletes the tag `id`.
    fn delete(&mut self, id: i32) -> (result: Result<(), RepositoryError>)
        ensures
            keeps_to(
                old(self).table(),
                final(self).table(),
                result_view(result),
                old(self).table().delete(id as int),
            ),
            final(self).table().wf(),
    ;
}

} // verus!
