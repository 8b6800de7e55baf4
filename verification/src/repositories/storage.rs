//! What a persistent store and its storage engine say to each other.
//!
//! A persistent store does no input or output of its own. Each of its
//! operations is a small machine: it names the next [`Statement`] to run,
//! takes the engine's [`Reply`], and either names another statement or
//! finishes with the operation's result. Whoever drives the machine runs the
//! statements. Those between `Begin` and `Commit` form one transaction; where
//! a machine finishes before the reply to `Commit`, the transaction it opened
//! is to be rolled back, so that nothing of it becomes visible.

use vstd::prelude::*;

use super::blog::BlogFromRow;
use super::blog::BlogRowView;
use super::blog::BlogWithTagFromRow;
use super::blog::id_views;
use super::blog::row_views;
use super::blog::RowView;
use super::ErrorView;
use super::RepositoryError;
use super::result_view;
use super::tag::Tag;
use super::tag::tag_views;
use super::tag::TagView;

verus! {

/// How a statement failed.
#[derive(Debug, Clone, Copy, PartialEq, Eq)]
pub enum StorageErrorKind {
    /// The statement was to yield a row and yielded none.
    RowNotFound,
    /// The engine refused the statement, because it breaks a constraint of the
    /// schema.
    Rejected,
    /// Any other failure: of the connection, of the data, of the engine.
    Other,
}

/// A failure of the storage engine, as a mathematical value.
pub struct StorageErrorView {
    pub kind: StorageErrorKind,
    pub detail: Seq<char>,
}

/// A failure of the storage engine: its kind, and the engine's own words.
#[derive(Debug, PartialEq, Eq)]
pub struct StorageError {
    pub kind: StorageErrorKind,
    pub detail: String,
}

impl View for StorageError {
    type V = StorageErrorView;

    open spec fn view(&self) -> StorageErrorView {
        StorageErrorView { kind: self.kind, detail: self.detail@ }
    }
}

impl StorageErrorView {
    /// The error of an operation on the record `id` that this failure ends:
    /// `NotFound` where a row was missing, else `Unexpected` with the engine's
    /// words.
    pub open spec fn on_record(self, id: int) -> ErrorView {
        match self.kind {
            StorageErrorKind::RowNotFound => ErrorView::NotFound(id),
            _ => ErrorView::Unexpected(self.detail),
        }
    }

    /// The error of an operation that this failure ends where no record is in
    /// question: `Unexpected` with the engine's words.
    pub open spec fn unclassified(self) -> ErrorView {
        ErrorView::Unexpected(self.detail)
    }
}

impl RepositoryError {
    /// Classifies a failure of the storage engine during an operation on the
    /// record `id`.
    pub fn from_storage(error: StorageError, id: i32) -> (classified: Self)
        ensures
            classified@ == error@.on_record(id as int),
    {
        match error.kind {
            StorageErrorKind::RowNotFound => RepositoryError::NotFound(id),
            _ => RepositoryError::Unexpected(error.detail),
        }
    }

    /// Classifies a failure of the storage engine during an operation that is
    /// about no single record.
    pub fn unexpected(error: StorageError) -> (classified: Self)
        ensures
            classified@ == error@.unclassified(),
    {
        RepositoryError::Unexpected(error.detail)
    }

    /// The error for a reply that does not answer the statement that was run,
    /// or that comes when the operation has finished.
    pub fn out_of_turn() -> (error: Self)
        ensures
            error@ == out_of_turn(),
    {
        RepositoryError::Unexpected("the storage engine answered out of turn".to_owned())
    }
}

/// The error for a reply that does not answer the statement that was run.
pub open spec fn out_of_turn() -> ErrorView {
    ErrorView::Unexpected("the storage engine answered out of turn"@)
}

/// The error that ends an operation on the record `id` when `reply` is not the
/// answer it waited for: the failure that the reply reports, classified, or
/// that the reply came out of turn.
pub open spec fn refusal(reply: ReplyView, id: int) -> ErrorView {
    match reply {
        ReplyView::Failed(error) => error.on_record(id),
        _ => out_of_turn(),
    }
}

/// The error that ends an operation that is about no single record when `reply`
/// is not the answer it waited for.
pub open spec fn plain_refusal(reply: ReplyView) -> ErrorView {
    match reply {
        ReplyView::Failed(error) => error.unclassified(),
        _ => out_of_turn(),
    }
}

/// One statement for the storage engine, as a mathematical value.
pub enum StatementView {
    Begin,
    Commit,
    InsertBlog { title: Seq<char>, body: Seq<char> },
    UpdateBlog { id: int, title: Seq<char>, body: Seq<char> },
    DeleteBlog { id: int },
    InsertBlogTags { blog_id: int, tag_ids: Seq<int> },
    DeleteBlogTags { blog_id: int },
    SelectBlog { id: int },
    SelectBlogs,
    SelectTagByName { name: Seq<char> },
    InsertTag { name: Seq<char> },
    DeleteTag { id: int },
    SelectTags,
}

/// One statement for the storage engine.
#[derive(Debug, PartialEq, Eq)]
pub enum Statement {
    /// Open a transaction.
    Begin,
    /// Commit the open transaction.
    Commit,
    /// Store a new post; the reply holds its row.
    InsertBlog { title: String, body: String },
    /// Give the post `id` this title and body; the reply holds its row.
    UpdateBlog { id: i32, title: String, body: String },
    /// Remove the post `id`.
    DeleteBlog { id: i32 },
    /// Associate the post with each of the tags, in this order.
    InsertBlogTags { blog_id: i32, tag_ids: Vec<i32> },
    /// Remove every association of the post.
    DeleteBlogTags { blog_id: i32 },
    /// The join rows of the post `id`.
    SelectBlog { id: i32 },
    /// The join rows of all posts, the post with the greatest identifier first.
    SelectBlogs,
    /// The tag of this name, if there is one.
    SelectTagByName { name: String },
    /// Store a new tag; the reply holds it.
    InsertTag { name: String },
    /// Remove the tag `id`, and with it every association that names it.
    DeleteTag { id: i32 },
    /// All tags, the tag with the least identifier first.
    SelectTags,
}

impl View for Statement {
    type V = StatementView;

    open spec fn view(&self) -> StatementView {
        match self {
            Statement::Begin => StatementView::Begin,
            Statement::Commit => StatementView::Commit,
            Statement::InsertBlog { title, body } => StatementView::InsertBlog {
                title: title@,
                body: body@,
            },
            Statement::UpdateBlog { id, title, body } => StatementView::UpdateBlog {
                id: *id as int,
                title: title@,
                body: body@,
            },
            Statement::DeleteBlog { id } => StatementView::DeleteBlog { id: *id as int },
            Statement::InsertBlogTags { blog_id, tag_ids } => StatementView::InsertBlogTags {
                blog_id: *blog_id as int,
                tag_ids: id_views(tag_ids@),
            },
            Statement::DeleteBlogTags { blog_id } => StatementView::DeleteBlogTags {
                blog_id: *blog_id as int,
            },
            Statement::SelectBlog { id } => StatementView::SelectBlog { id: *id as int },
            Statement::SelectBlogs => StatementView::SelectBlogs,
            Statement::SelectTagByName { name } => StatementView::SelectTagByName { name: name@ },
            Statement::InsertTag { name } => StatementView::InsertTag { name: name@ },
            Statement::DeleteTag { id } => StatementView::DeleteTag { id: *id as int },
            Statement::SelectTags => StatementView::SelectTags,
        }
    }
}

/// The storage engine's answer to one statement, as a mathematical value.
pub enum ReplyView {
    Done { rows_affected: nat },
    Blog(BlogRowView),
    BlogRows(Seq<RowView>),
    TagFound(Option<TagView>),
    Tag(TagView),
    Tags(Seq<TagView>),
    Failed(StorageErrorView),
}

/// The storage engine's answer to one statement.
#[derive(Debug, PartialEq, Eq)]
pub enum Reply {
    /// The statement ran, and changed this many rows.
    Done { rows_affected: u64 },
    /// The row of the post that was written.
    Blog(BlogFromRow),
    /// The join rows that were asked for.
    BlogRows(Vec<BlogWithTagFromRow>),
    /// The tag that was looked up, or that there is none.
    TagFound(Option<Tag>),
    /// The tag that was written.
    Tag(Tag),
    /// The tags that were asked for.
    Tags(Vec<Tag>),
    /// The statement failed.
    Failed(StorageError),
}

impl View for Reply {
    type V = ReplyView;

    open spec fn view(&self) -> ReplyView {
        match self {
            Reply::Done { rows_affected } => ReplyView::Done {
                rows_affected: *rows_affected as nat,
            },
            Reply::Blog(row) => ReplyView::Blog(row@),
            Reply::BlogRows(rows) => ReplyView::BlogRows(row_views(rows@)),
            Reply::TagFound(found) => ReplyView::TagFound(
                match found {
                    Some(tag) => Some(tag@),
                    None => None,
                },
            ),
            Reply::Tag(tag) => ReplyView::Tag(tag@),
            Reply::Tags(tags) => ReplyView::Tags(tag_views(tags@)),
            Reply::Failed(error) => ReplyView::Failed(error@),
        }
    }
}

/// What follows a reply, as a mathematical value.
pub enum StepView<V> {
    Run(StatementView),
    Finish(Result<V, ErrorView>),
}

/// What follows a reply: another statement to run, or the end of the operation
/// with its result.
#[derive(Debug, PartialEq, Eq)]
pub enum Step<T> {
    Run(Statement),
    Finish(Result<T, RepositoryError>),
}

impl Reply {
    /// The error that ends an operation on the record `id` when this reply is
    /// not the answer it waited for.
    pub fn refusal(self, id: i32) -> (error: RepositoryError)
        ensures
            error@ == refusal(self@, id as int),
    {
        match self {
            Reply::Failed(error) => RepositoryError::from_storage(error, id),
            _ => RepositoryError::out_of_turn(),
        }
    }

    /// The error that ends an operation that is about no single record when
    /// this reply is not the answer it waited for.
    pub fn plain_refusal(self) -> (error: RepositoryError)
        ensures
            error@ == plain_refusal(self@),
    {
        match self {
            Reply::Failed(error) => RepositoryError::unexpected(error),
            _ => RepositoryError::out_of_turn(),
        }
    }
}

impl<T: View> View for Step<T> {
    type V = StepView<T::V>;

    open spec fn view(&self) -> StepView<T::V> {
        match self {
            Step::Run(statement) => StepView::Run(statement@),
            Step::Finish(result) => StepView::Finish(
result_view(*result)),
        }
    }
}

} // verus!
