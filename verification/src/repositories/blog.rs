//! Posts: what they are made of, the flat rows that a join yields for them,
//! and the operations of a post store.

use vstd::prelude::*;

pub mod fold;
pub mod memory;
pub mod persistent;
pub mod table;

pub use self::fold::fold_entities;
pub use self::table::BlogTable;

use crate::validation::check_length;
use crate::validation::length_check;
use crate::validation::ValidationError;
use super::ErrorView;
use super::keeps_to;
use super::RepositoryError;
use super::result_view;
use super::tag::Tag;
use super::tag::tag_views;
use super::tag::TagView;

verus! {

/// A post as a mathematical value.
pub struct BlogView {
    pub id: int,
    pub title: Seq<char>,
    pub body: Seq<char>,
    pub tags: Seq<TagView>,
}

/// A post with the tags that are attached to it, in the order in which the rows
/// of the join reported them. Its identity is `id`.
#[derive(Debug, PartialEq, Eq)]
pub struct BlogEntity {
    pub id: i32,
    pub title: String,
    pub body: String,
    pub tags: Vec<Tag>,
}

/// The posts of a sequence, each as a mathematical value.
pub open spec fn blog_views(posts: Seq<BlogEntity>) -> Seq<BlogView> {
    posts.map_values(|post: BlogEntity| post@)
}

impl View for BlogEntity {
    type V = BlogView;

    open spec fn view(&self) -> BlogView {
        BlogView {
            id: self.id as int,
            title: self.title@,
            body: self.body@,
            tags: tag_views(self.tags@),
        }
    }
}

impl Clone for BlogEntity {
    fn clone(&self) -> (copy: Self)
        ensures
            copy@ == self@,
    {
        BlogEntity {
            id: self.id,
            title: self.title.clone(),
            body: self.body.clone(),
            tags: self.tags.clone(),
        }
    }
}

impl BlogEntity {
    pub fn new(id: i32, title: String, body: String, tags: Vec<Tag>) -> (post: Self)
        ensures
            post.id == id,
            post.title == title,
            post.body == body,
            post.tags == tags,
    {
        BlogEntity { id, title, body, tags }
    }
}

/// The result of listing posts, as a mathematical value.
pub open spec fn listing_view(result: Result<Vec<BlogEntity>, RepositoryError>) -> Result<
    Seq<BlogView>,
    ErrorView,
> {
    match result {
        Ok(posts) => Ok(blog_views(posts@)),
        Err(error) => Err(error@),
    }
}

/// The identifiers of a sequence, each as a mathematical integer.
pub open spec fn id_views(ids: Seq<i32>) -> Seq<int> {
    ids.map_values(|id: i32| id as int)
}

/// The characters of a text that may be absent.
pub open spec fn text_view(text: Option<String>) -> Option<Seq<char>> {
    match text {
        Some(text) => Some(text@),
        None => None,
    }
}

/// What a new post is made of, as a mathematical value.
pub struct CreateBlogView {
    pub title: Seq<char>,
    pub body: Seq<char>,
    pub tags: Seq<int>,
}

/// What a new post is made of: its title, its body, and the identifiers of the
/// tags to attach, one association for each, repeated where it repeats.
#[derive(Debug, PartialEq, Eq)]
pub struct CreateBlog {
    pub title: String,
    pub body: String,
    pub tags: Vec<i32>,
}

impl View for CreateBlog {
    type V = CreateBlogView;

    open spec fn view(&self) -> CreateBlogView {
        CreateBlogView { title: self.title@, body: self.body@, tags: id_views(self.tags@) }
    }
}

impl Clone for CreateBlog {
    fn clone(&self) -> (copy: Self)
        ensures
            copy@ == self@,
    {
        CreateBlog { title: self.title.clone(), body: self.body.clone(), tags: self.tags.clone() }
    }
}

impl CreateBlog {
    pub fn new(title: String, body: String, tags: Vec<i32>) -> (payload: Self)
        ensures
            payload.title == title,
            payload.body == body,
            payload.tags == tags,
    {
        CreateBlog { title, body, tags }
    }

    /// Whether the title has a length that a title may have.
    pub fn validate(&self) -> (result: Result<(), ValidationError>)
        ensures
            result == length_check(self@.title),
    {
        check_length(&self.title)
    }
}

/// A change to a post, as a mathematical value.
pub struct UpdateBlogView {
    pub title: Option<Seq<char>>,
    pub body: Option<Seq<char>>,
    pub tags: Option<Seq<int>>,
}

/// A change to a post. A field that is absent keeps what the post has; `tags`,
/// where present, replaces every association of the post, also where it is
/// empty.
#[derive(Debug, PartialEq, Eq)]
pub struct UpdateBlog {
    pub title: Option<String>,
    pub body: Option<String>,
    pub tags: Option<Vec<i32>>,
}

impl View for UpdateBlog {
    type V = UpdateBlogView;

    open spec fn view(&self) -> UpdateBlogView {
        UpdateBlogView {
            title: text_view(self.title),
            body: text_view(self.body),
            tags: match self.tags {
                Some(tags) => Some(id_views(tags@)),
                None => None,
            },
        }
    }
}

impl Clone for UpdateBlog {
    fn clone(&self) -> (copy: Self)
        ensures
            copy@ == self@,
    {
        UpdateBlog {
            title: match &self.title {
                Some(title) => Some(title.clone()),
                None => None,
            },
            body: match &self.body {
                Some(body) => Some(body.clone()),
                None => None,
            },
            tags: match &self.tags {
                Some(tags) => Some(tags.clone()),
                None => None,
            },
        }
    }
}

impl UpdateBlog {
    /// Whether the title, where one is given, has a length that a title may
    /// have.
    pub fn validate(&self) -> (result: Result<(), ValidationError>)
        ensures
            result == match self@.title {
                Some(title) => length_check(title),
                None => Ok(()),
            },
    {
        match &self.title {
            Some(title) => check_length(title),
            None => Ok(()),
        }
    }
}

/// The columns of a stored post, as a mathematical value.
pub struct BlogRowView {
    pub id: int,
    pub title: Seq<char>,
    pub body: Seq<char>,
}

/// The columns of a stored post, without its tags: what the storage engine
/// hands back when it has written one.
#[derive(Debug, PartialEq, Eq)]
pub struct BlogFromRow {
    pub id: i32,
    pub title: String,
    pub body: String,
}

impl Clone for BlogFromRow {
    fn clone(&self) -> (copy: Self)
        ensures
            copy == *self,
    {
        BlogFromRow { id: self.id, title: self.title.clone(), body: self.body.clone() }
    }
}

impl View for BlogFromRow {
    type V = BlogRowView;

    open spec fn view(&self) -> BlogRowView {
        BlogRowView { id: self.id as int, title: self.title@, body: self.body@ }
    }
}

/// One row of the join of posts with their tags, as a mathematical value.
pub struct RowView {
    pub id: int,
    pub title: Seq<char>,
    pub body: Seq<char>,
    pub label_id: Option<int>,
    pub tag_name: Option<Seq<char>>,
}

impl RowView {
    /// The tag that the row attaches to its post: the one its two tag columns
    /// describe, where both are present.
    pub open spec fn tag(self) -> Option<TagView> {
        match (self.label_id, self.tag_name) {
            (Some(id), Some(name)) => Some(TagView { id, name }),
            _ => None,
        }
    }

    /// The tags that the row attaches to its post: one or none.
    pub open spec fn tags(self) -> Seq<TagView> {
        match self.tag() {
            Some(tag) => seq![tag],
            None => Seq::empty(),
        }
    }
}

/// One row of the join of posts with their tags: the columns of a post, and the
/// columns of one of its tags. A post without tags has one row, in which the
/// tag columns are absent. Rows are read, folded and dropped; none is stored.
#[derive(Debug, PartialEq, Eq)]
pub struct BlogWithTagFromRow {
    pub id: i32,
    pub title: String,
    pub body: String,
    pub label_id: Option<i32>,
    pub tag_name: Option<String>,
}

impl View for BlogWithTagFromRow {
    type V = RowView;

    open spec fn view(&self) -> RowView {
        RowView {
            id: self.id as int,
            title: self.title@,
            body: self.body@,
            label_id: match self.label_id {
                Some(id) => Some(id as int),
                None => None,
            },
            tag_name: match self.tag_name {
                Some(name) => Some(name@),
                None => None,
            },
        }
    }
}

/// The rows of a sequence, each as a mathematical value.
pub open spec fn row_views(rows: Seq<BlogWithTagFromRow>) -> Seq<RowView> {
    rows.map_values(|row: BlogWithTagFromRow| row@)
}

impl Clone for BlogWithTagFromRow {
    fn clone(&self) -> (copy: Self)
        ensures
            copy == *self,
    {
        BlogWithTagFromRow {
            id: self.id,
            title: self.title.clone(),
            body: self.body.clone(),
            label_id: self.label_id,
            tag_name: match &self.tag_name {
                Some(name) => Some(name.clone()),
                None => None,
            },
        }
    }
}

impl BlogWithTagFromRow {
    /// The tag that the row attaches to its post, if its two tag columns are
    /// both present.
    pub fn tag(&self) -> (tag: Option<Tag>)
        ensures
            match tag {
                Some(tag) => self@.tag() == Some(tag@),
                None => self@.tag() is None,
            },
    {
        match (&self.label_id, &self.tag_name) {
            (Some(id), Some(name)) => Some(Tag { id: *id, name: name.clone() }),
            _ => None,
        }
    }
}

/// The operations of a post store. What each comes to is said by [`BlogTable`];
/// a store keeps to it, and can besides fail with `Unexpected` at any time, in
/// which case it stays as it was.
pub trait BlogRepository {
    /// The store as a mathematical value.
    spec fn table(&self) -> BlogTable;

    /// Creates a post.
    fn create(&mut self, payload: CreateBlog) -> (result: Result<BlogEntity, RepositoryError>)
        ensures
            keeps_to(
                old(self).table(),
                final(self).table(),
                result_view(result),
                old(self).table().create(payload@),
            ),
            final(self).table().wf(),
    ;

    /// Finds the post `id`.
    fn find(&self, id: i32) -> (result: Result<BlogEntity, RepositoryError>)
        ensures
            keeps_to(
                self.table(),
                self.table(),
                result_view(result),
                (self.table(), self.table().find(id as int)),
            ),
            self.table().wf(),
    ;

    /// All posts, the post with the greatest identifier first.
    fn all(&self) -> (result: Result<Vec<BlogEntity>, RepositoryError>)
        ensures
            match result {
                Ok(posts) => self.table().lists(blog_views(posts@)),
                Err(error) => error@ is Unexpected,
            },
            self.table().wf(),
    ;

    /// Updates the post `id`.
    fn update(&mut self, id: i32, payload: UpdateBlog) -> (result: Result<
        BlogEntity,
        RepositoryError,
    >)
        ensures
            keeps_to(
                old(self).table(),
                final(self).table(),
                result_view(result),
                old(self).table().update(id as int, payload@),
            ),
            final(self).table().wf(),
    ;

    /// Deletes the post `id`.
    fn delete(&mut self, id: i32) -> (result: Result<(), RepositoryError>)
        ensures
            keeps_to(
                old(self).table(),
                final(self).table(),
                result_view(result),
                old(self).table().delete(id as int),
            ),
            final(self).table().wf(),
    ;
}

} // verus!
