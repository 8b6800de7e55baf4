//! The persistent post store: what it asks of the storage engine, and what
//! it makes of the answers.
//!
//! Creating, updating and deleting a post each take several statements, which
//! run in one transaction. Each is a machine that is begun with the
//! operation's arguments and advanced with the engine's replies. Finding a
//! post and listing all posts take one statement each.

use vstd::prelude::*;

use super::super::ErrorView;
use super::super::RepositoryError;
use super::super::result_view;
use super::super::storage::out_of_turn;
use super::super::storage::plain_refusal;
use super::super::storage::refusal;
use super::super::storage::Reply;
use super::super::storage::ReplyView;
use super::super::storage::Statement;
use super::super::storage::StatementView;
use super::super::storage::Step;
use super::super::storage::StepView;
use super::super::storage::StorageErrorKind;
use super::super::storage::StorageErrorView;
use super::blog_views;
use super::BlogEntity;
use super::BlogRowView;
use super::BlogView;
use super::BlogWithTagFromRow;
use super::CreateBlog;
use super::CreateBlogView;
use super::fold::fold_entities;
use super::fold::folded;
use super::fold::hydrated;
use super::fold::post_ids;
use super::id_views;
use super::listing_view;
use super::row_views;
use super::RowView;
use super::UpdateBlog;
use super::UpdateBlogView;

verus! {

/// The post that the join rows of the post `id` describe: the first that they
/// fold into, and `NotFound` where there is no row.
pub open spec fn post_in(rows: Seq<RowView>, id: int) -> Result<BlogView, ErrorView> {
    if rows.len() == 0 {
        Err(ErrorView::NotFound(id))
    } else {
        Ok(hydrated(rows, rows[0].id))
    }
}

proof fn lemma_first_post(rows: Seq<RowView>)
    requires
        rows.len() > 0,
    ensures
        folded(rows).len() > 0,
        folded(rows)[0] == hydrated(rows, rows[0].id),
{
    lemma_first_id(rows);
}

proof fn lemma_first_id(rows: Seq<RowView>)
    requires
        rows.len() > 0,
    ensures
        post_ids(rows).len() > 0,
        post_ids(rows)[0] == rows[0].id,
    decreases rows.len(),
{
    let before = rows.drop_last();
    if rows.len() > 1 {
        lemma_first_id(before);
    } else {
        assert(post_ids(before) =~= Seq::<int>::empty());
    }
}

/// Folds the join rows of the post `id` into that post.
pub fn post_from_rows(id: i32, rows: Vec<BlogWithTagFromRow>) -> (result: Result<
    BlogEntity,
    RepositoryError,
>)
    ensures
        result_view(result) == post_in(row_views(rows@), id as int),
{
    let ghost views = row_views(rows@);
    let posts = fold_entities(rows);
    proof {
        assert(blog_views(posts@).len() == posts.len());
        if views.len() > 0 {
            lemma_first_post(views);
        }
    }
    if posts.len() == 0 {
        Err(RepositoryError::NotFound(id))
    } else {
        Ok(posts[0].clone())
    }
}

/// An update of a post, by what it waits for.
pub enum BlogUpdateView {
    Opening { id: int, payload: UpdateBlogView },
    Reading { id: int, payload: UpdateBlogView },
    Writing { id: int, new_tags: Option<Seq<int>> },
    Clearing { id: int, tags: Seq<int> },
    Attaching { id: int },
    Committing { id: int },
    Returning { id: int },
    Finished,
}

/// An update of a post, by what it waits for.
#[derive(Debug, PartialEq, Eq)]
pub enum BlogUpdate {
    /// `Begin` was sent.
    Opening { id: i32, payload: UpdateBlog },
    /// The post as it stands was asked for.
    Reading { id: i32, payload: UpdateBlog },
    /// The new title and body were sent; `new_tags` is what the associations
    /// are to become, if they are to change.
    Writing { id: i32, new_tags: Option<Vec<i32>> },
    /// The removal of the old associations was sent; `tags` is to replace them.
    Clearing { id: i32, tags: Vec<i32> },
    /// The new associations were sent.
    Attaching { id: i32 },
    /// `Commit` was sent.
    Committing { id: i32 },
    /// The post as it now stands was asked for.
    Returning { id: i32 },
    /// The update has finished.
    Finished,
}

impl View for BlogUpdate {
    type V = BlogUpdateView;

    open spec fn view(&self) -> BlogUpdateView {
        match self {
            BlogUpdate::Opening { id, payload } => BlogUpdateView::Opening {
                id: *id as int,
                payload: payload@,
            },
            BlogUpdate::Reading { id, payload } => BlogUpdateView::Reading {
                id: *id as int,
                payload: payload@,
            },
            BlogUpdate::Writing { id, new_tags } => BlogUpdateView::Writing {
                id: *id as int,
                new_tags: match new_tags {
                    Some(tags) => Some(id_views(tags@)),
                    None => None,
                },
            },
            BlogUpdate::Clearing { id, tags } => BlogUpdateView::Clearing {
                id: *id as int,
                tags: id_views(tags@),
            },
            BlogUpdate::Attaching { id } => BlogUpdateView::Attaching { id: *id as int },
            BlogUpdate::Committing { id } => BlogUpdateView::Committing { id: *id as int },
            BlogUpdate::Returning { id } => BlogUpdateView::Returning { id: *id as int },
            BlogUpdate::Finished => BlogUpdateView::Finished,
        }
    }
}

impl BlogUpdateView {
    /// The end of the update, with its result.
    pub open spec fn stop(result: Result<BlogView, ErrorView>) -> (
        BlogUpdateView,
        StepView<BlogView>,
    ) {
        (BlogUpdateView::Finished, StepView::Finish(result))
    }

    /// What the update does with a reply: the statements of an update, in their
    /// order, are `Begin`, the reading of the post, the writing of title and
    /// body, each as given or else as read, then, where tags are given, the
    /// removal of the post's associations and the insertion of the new ones,
    /// then `Commit`, and the reading of the post, which is the result. A post
    /// that is not there ends the update with `NotFound` before anything is
    /// written, and a reply other than the one waited for ends it where it
    /// stands.
    pub open spec fn next(self, reply: ReplyView) -> (BlogUpdateView, StepView<BlogView>) {
        match self {
            BlogUpdateView::Opening { id, payload } => match reply {
                ReplyView::Done { .. } => (
                    BlogUpdateView::Reading { id, payload },
                    StepView::Run(StatementView::SelectBlog { id }),
                ),
                _ => Self::stop(Err(refusal(reply, id))),
            },
            BlogUpdateView::Reading { id, payload } => match reply {
                ReplyView::BlogRows(rows) => match post_in(rows, id) {
                    Ok(current) => (
                        BlogUpdateView::Writing { id, new_tags: payload.tags },
                        StepView::Run(
                            StatementView::UpdateBlog {
                                id,
                                title: match payload.title {
                                    Some(title) => title,
                                    None => current.title,
                                },
                                body: match payload.body {
                                    Some(body) => body,
                                    None => current.body,
                                },
                            },
                        ),
                    ),
                    Err(error) => Self::stop(Err(error)),
                },
                _ => Self::stop(Err(refusal(reply, id))),
            },
            BlogUpdateView::Writing { id, new_tags } => match reply {
                ReplyView::Blog(_) => match new_tags {
                    Some(tags) => (
                        BlogUpdateView::Clearing { id, tags },
                        StepView::Run(StatementView::DeleteBlogTags { blog_id: id }),
                    ),
                    None => (
                        BlogUpdateView::Committing { id },
                        StepView::Run(StatementView::Commit),
                    ),
                },
                _ => Self::stop(Err(refusal(reply, id))),
            },
            BlogUpdateView::Clearing { id, tags } => match reply {
                ReplyView::Done { .. } => (
                    BlogUpdateView::Attaching { id },
                    StepView::Run(StatementView::InsertBlogTags { blog_id: id, tag_ids: tags }),
                ),
                _ => Self::stop(Err(refusal(reply, id))),
            },
            BlogUpdateView::Attaching { id } => match reply {
                ReplyView::Done { .. } => (
                    BlogUpdateView::Committing { id },
                    StepView::Run(StatementView::Commit),
                ),
                _ => Self::stop(Err(refusal(reply, id))),
            },
            BlogUpdateView::Committing { id } => match reply {
                ReplyView::Done { .. } => (
                    BlogUpdateView::Returning { id },
                    StepView::Run(StatementView::SelectBlog { id }),
                ),
                _ => Self::stop(Err(refusal(reply, id))),
            },
            BlogUpdateView::Returning { id } => match reply {
                ReplyView::BlogRows(rows) => Self::stop(post_in(rows, id)),
                _ => Self::stop(Err(refusal(reply, id))),
            },
            BlogUpdateView::Finished => Self::stop(Err(out_of_turn())),
        }
    }
}

impl BlogUpdate {
    /// Begins the update of the post `id`: the first statement opens the
    /// transaction.
    pub fn begin(id: i32, payload: UpdateBlog) -> (start: (Self, Statement))
        ensures
            start.0@ == (BlogUpdateView::Opening { id: id as int, payload: payload@ }),
            start.1@ == StatementView::Begin,
    {
        (BlogUpdate::Opening { id, payload }, Statement::Begin)
    }

    /// Takes the reply to the statement that was named last, and names the next
    /// one or finishes.
    pub fn advance(self, reply: Reply) -> (next: (Self, Step<BlogEntity>))
        ensures
            (next.0@, next.1@) == self@.next(reply@),
    {
        match self {
            BlogUpdate::Opening { id, payload } => match reply {
                Reply::Done { .. } => (
                    BlogUpdate::Reading { id, payload },
                    Step::Run(Statement::SelectBlog { id }),
                ),
                other => (BlogUpdate::Finished, Step::Finish(Err(other.refusal(id)))),
            },
            BlogUpdate::Reading { id, payload } => match reply {
                Reply::BlogRows(rows) => match post_from_rows(id, rows) {
                    Ok(current) => {
                        let title = match payload.title {
                            Some(title) => title,
                            None => current.title,
                        };
                        let body = match payload.body {
                            Some(body) => body,
                            None => current.body,
                        };
                        (
                            BlogUpdate::Writing { id, new_tags: payload.tags },
                            Step::Run(Statement::UpdateBlog { id, title, body }),
                        )
                    },
                    Err(error) => (BlogUpdate::Finished, Step::Finish(Err(error))),
                },
                other => (BlogUpdate::Finished, Step::Finish(Err(other.refusal(id)))),
            },
            BlogUpdate::Writing { id, new_tags } => match reply {
                Reply::Blog(_) => match new_tags {
                    Some(tags) => (
                        BlogUpdate::Clearing { id, tags },
                        Step::Run(Statement::DeleteBlogTags { blog_id: id }),
                    ),
                    None => (BlogUpdate::Committing { id }, Step::Run(Statement::Commit)),
                },
                other => (BlogUpdate::Finished, Step::Finish(Err(other.refusal(id)))),
            },
            BlogUpdate::Clearing { id, tags } => match reply {
                Reply::Done { .. } => (
                    BlogUpdate::Attaching { id },
                    Step::Run(Statement::InsertBlogTags { blog_id: id, tag_ids: tags }),
                ),
                other => (BlogUpdate::Finished, Step::Finish(Err(other.refusal(id)))),
            },
            BlogUpdate::Attaching { id } => match reply {
                Reply::Done { .. } => (BlogUpdate::Committing { id }, Step::Run(Statement::Commit)),
                other => (BlogUpdate::Finished, Step::Finish(Err(other.refusal(id)))),
            },
            BlogUpdate::Committing { id } => match reply {
                Reply::Done { .. } => (
                    BlogUpdate::Returning { id },
                    Step::Run(Statement::SelectBlog { id }),
                ),
                other => (BlogUpdate::Finished, Step::Finish(Err(other.refusal(id)))),
            },
            BlogUpdate::Returning { id } => match reply {
                Reply::BlogRows(rows) => (
                    BlogUpdate::Finished,
                    Step::Finish(post_from_rows(id, rows)),
                ),
                other => (BlogUpdate::Finished, Step::Finish(Err(other.refusal(id)))),
            },
            BlogUpdate::Finished => (
                BlogUpdate::Finished,
                Step::Finish(Err(RepositoryError::out_of_turn())),
            ),
        }
    }
}

/// The deletion of a post, by what it waits for.
pub enum BlogDeletionView {
    Opening { id: int },
    Clearing { id: int },
    Removing { id: int },
    Committing { id: int },
    Finished,
}

/// The deletion of a post, by what it waits for.
#[derive(Debug, PartialEq, Eq)]
pub enum BlogDeletion {
    /// `Begin` was sent.
    Opening { id: i32 },
    /// The removal of the post's associations was sent.
    Clearing { id: i32 },
    /// The removal of the post was sent.
    Removing { id: i32 },
    /// `Commit` was sent.
    Committing { id: i32 },
    /// The deletion has finished.
    Finished,
}

impl View for BlogDeletion {
    type V = BlogDeletionView;

    open spec fn view(&self) -> BlogDeletionView {
        match self {
            BlogDeletion::Opening { id } => BlogDeletionView::Opening { id: *id as int },
            BlogDeletion::Clearing { id } => BlogDeletionView::Clearing { id: *id as int },
            BlogDeletion::Removing { id } => BlogDeletionView::Removing { id: *id as int },
            BlogDeletion::Committing { id } => BlogDeletionView::Committing { id: *id as int },
            BlogDeletion::Finished => BlogDeletionView::Finished,
        }
    }
}

impl BlogDeletionView {
    /// The end of the deletion, with its result.
    pub open spec fn stop(result: Result<(), ErrorView>) -> (BlogDeletionView, StepView<()>) {
        (BlogDeletionView::Finished, StepView::Finish(result))
    }

    /// What the deletion does with a reply: its statements, in their order, are
    /// `Begin`, the removal of the post's associations, the removal of the
    /// post, and `Commit`. That the post had no association is no failure; that
    /// no post was removed ends the deletion with `NotFound`, before `Commit`.
    pub open spec fn next(self, reply: ReplyView) -> (BlogDeletionView, StepView<()>) {
        match self {
            BlogDeletionView::Opening { id } => match reply {
                ReplyView::Done { .. } => (
                    BlogDeletionView::Clearing { id },
                    StepView::Run(StatementView::DeleteBlogTags { blog_id: id }),
                ),
                _ => Self::stop(Err(refusal(reply, id))),
            },
            BlogDeletionView::Clearing { id } => match reply {
                ReplyView::Done { .. } => (
                    BlogDeletionView::Removing { id },
                    StepView::Run(StatementView::DeleteBlog { id }),
                ),
                _ => Self::stop(Err(refusal(reply, id))),
            },
            BlogDeletionView::Removing { id } => match reply {
                ReplyView::Done { rows_affected } => if rows_affected == 0 {
                    Self::stop(Err(ErrorView::NotFound(id)))
                } else {
                    (BlogDeletionView::Committing { id }, StepView::Run(StatementView::Commit))
                },
                _ => Self::stop(Err(refusal(reply, id))),
            },
            BlogDeletionView::Committing { id } => match reply {
                ReplyView::Done { .. } => Self::stop(Ok(())),
                _ => Self::stop(Err(refusal(reply, id))),
            },
            BlogDeletionView::Finished => Self::stop(Err(out_of_turn())),
        }
    }
}

impl BlogDeletion {
    /// Begins the deletion of the post `id`: the first statement opens the
    /// transaction.
    pub fn begin(id: i32) -> (start: (Self, Statement))
        ensures
            start.0@ == (BlogDeletionView::Opening { id: id as int }),
            start.1@ == StatementView::Begin,
    {
        (BlogDeletion::Opening { id }, Statement::Begin)
    }

    /// Takes the reply to the statement that was named last, and names the next
    /// one or finishes.
    pub fn advance(self, reply: Reply) -> (next: (Self, Step<()>))
        ensures
            (next.0@, next.1@) == self@.next(reply@),
    {
        match self {
            BlogDeletion::Opening { id } => match reply {
                Reply::Done { .. } => (
                    BlogDeletion::Clearing { id },
                    Step::Run(Statement::DeleteBlogTags { blog_id: id }),
                ),
                other => (BlogDeletion::Finished, Step::Finish(Err(other.refusal(id)))),
            },
            BlogDeletion::Clearing { id } => match reply {
                Reply::Done { .. } => (
                    BlogDeletion::Removing { id },
                    Step::Run(Statement::DeleteBlog { id }),
                ),
                other => (BlogDeletion::Finished, Step::Finish(Err(other.refusal(id)))),
            },
            BlogDeletion::Removing { id } => match reply {
                Reply::Done { rows_affected } => if rows_affected == 0 {
                    (BlogDeletion::Finished, Step::Finish(Err(RepositoryError::NotFound(id))))
                } else {
                    (BlogDeletion::Committing { id }, Step::Run(Statement::Commit))
                },
                other => (BlogDeletion::Finished, Step::Finish(Err(other.refusal(id)))),
            },
            BlogDeletion::Committing { id } => match reply {
                Reply::Done { .. } => (BlogDeletion::Finished, Step::Finish(Ok(()))),
                other => (BlogDeletion::Finished, Step::Finish(Err(other.refusal(id)))),
            },
            BlogDeletion::Finished => (
                BlogDeletion::Finished,
                Step::Finish(Err(RepositoryError::out_of_turn())),
            ),
        }
    }
}

/// The identifier in the error of a creation that failed before the new post
/// had one.
pub const UNASSIGNED: i32 = 0;

/// The error of a creation whose insertion of the post failed: `NotFound` where
/// the engine refused the post or gave no row back, else `Unexpected` with the
/// engine's words.
pub open spec fn insertion_refusal(reply: ReplyView) -> ErrorView {
    match reply {
        ReplyView::Failed(error) => match error.kind {
            StorageErrorKind::Other => ErrorView::Unexpected(error.detail),
            _ => ErrorView::NotFound(UNASSIGNED as int),
        },
        _ => out_of_turn(),
    }
}

fn insertion_refused(reply: Reply) -> (error: RepositoryError)
    ensures
        error@ == insertion_refusal(reply@),
{
    match reply {
        Reply::Failed(error) => match error.kind {
            StorageErrorKind::Other => RepositoryError::Unexpected(error.detail),
            _ => RepositoryError::NotFound(UNASSIGNED),
        },
        _ => RepositoryError::out_of_turn(),
    }
}

/// The creation of a post, by what it waits for.
pub enum BlogCreationView {
    Opening { payload: CreateBlogView },
    Inserting { tags: Seq<int> },
    Attaching { id: int },
    Committing { id: int },
    Returning { id: int },
    Finished,
}

/// The creation of a post, by what it waits for.
#[derive(Debug, PartialEq, Eq)]
pub enum BlogCreation {
    /// `Begin` was sent.
    Opening { payload: CreateBlog },
    /// The post was sent; `tags` are to be attached to it.
    Inserting { tags: Vec<i32> },
    /// The associations of the post `id` were sent.
    Attaching { id: i32 },
    /// `Commit` was sent.
    Committing { id: i32 },
    /// The post as it now stands was asked for.
    Returning { id: i32 },
    /// The creation has finished.
    Finished,
}

impl View for BlogCreation {
    type V = BlogCreationView;

    open spec fn view(&self) -> BlogCreationView {
        match self {
            BlogCreation::Opening { payload } => BlogCreationView::Opening { payload: payload@ },
            BlogCreation::Inserting { tags } => BlogCreationView::Inserting {
                tags: id_views(tags@),
            },
            BlogCreation::Attaching { id } => BlogCreationView::Attaching { id: *id as int },
            BlogCreation::Committing { id } => BlogCreationView::Committing { id: *id as int },
            BlogCreation::Returning { id } => BlogCreationView::Returning { id: *id as int },
            BlogCreation::Finished => BlogCreationView::Finished,
        }
    }
}

impl BlogCreationView {
    /// The end of the creation, with its result.
    pub open spec fn stop(result: Result<BlogView, ErrorView>) -> (
        BlogCreationView,
        StepView<BlogView>,
    ) {
        (BlogCreationView::Finished, StepView::Finish(result))
    }

    /// What the creation does with a reply: its statements, in their order, are
    /// `Begin`, the insertion of the post, the insertion of one association for
    /// each tag identifier given, under the identifier that the engine gave the
    /// post, then `Commit`, and the reading of the post, which is the result. A
    /// post that the engine refuses ends the creation with `NotFound`, a tag
    /// that it refuses with `Unexpected`.
    pub open spec fn next(self, reply: ReplyView) -> (BlogCreationView, StepView<BlogView>) {
        match self {
            BlogCreationView::Opening { payload } => match reply {
                ReplyView::Done { .. } => (
                    BlogCreationView::Inserting { tags: payload.tags },
                    StepView::Run(
                        StatementView::InsertBlog { title: payload.title, body: payload.body },
                    ),
                ),
                _ => Self::stop(Err(plain_refusal(reply))),
            },
            BlogCreationView::Inserting { tags } => match reply {
                ReplyView::Blog(row) => (
                    BlogCreationView::Attaching { id: row.id },
                    StepView::Run(StatementView::InsertBlogTags { blog_id: row.id, tag_ids: tags }),
                ),
                _ => Self::stop(Err(insertion_refusal(reply))),
            },
            BlogCreationView::Attaching { id } => match reply {
                ReplyView::Done { .. } => (
                    BlogCreationView::Committing { id },
                    StepView::Run(StatementView::Commit),
                ),
                _ => Self::stop(Err(plain_refusal(reply))),
            },
            BlogCreationView::Committing { id } => match reply {
                ReplyView::Done { .. } => (
                    BlogCreationView::Returning { id },
                    StepView::Run(StatementView::SelectBlog { id }),
                ),
                _ => Self::stop(Err(plain_refusal(reply))),
            },
            BlogCreationView::Returning { id } => match reply {
                ReplyView::BlogRows(rows) => Self::stop(post_in(rows, id)),
                _ => Self::stop(Err(refusal(reply, id))),
            },
            BlogCreationView::Finished => Self::stop(Err(out_of_turn())),
        }
    }
}

impl BlogCreation {
    /// Begins the creation of a post: the first statement opens the
    /// transaction.
    pub fn begin(payload: CreateBlog) -> (start: (Self, Statement))
        ensures
            start.0@ == (BlogCreationView::Opening { payload: payload@ }),
            start.1@ == StatementView::Begin,
    {
        (BlogCreation::Opening { payload }, Statement::Begin)
    }

    /// Takes the reply to the statement that was named last, and names the next
    /// one or finishes.
    pub fn advance(self, reply: Reply) -> (next: (Self, Step<BlogEntity>))
        ensures
            (next.0@, next.1@) == self@.next(reply@),
    {
        match self {
            BlogCreation::Opening { payload } => match reply {
                Reply::Done { .. } => (
                    BlogCreation::Inserting { tags: payload.tags },
                    Step::Run(Statement::InsertBlog { title: payload.title, body: payload.body }),
                ),
                other => (BlogCreation::Finished, Step::Finish(Err(other.plain_refusal()))),
            },
            BlogCreation::Inserting { tags } => match reply {
                Reply::Blog(row) => (
                    BlogCreation::Attaching { id: row.id },
                    Step::Run(Statement::InsertBlogTags { blog_id: row.id, tag_ids: tags }),
                ),
                other => (BlogCreation::Finished, Step::Finish(Err(insertion_refused(other)))),
            },
            BlogCreation::Attaching { id } => match reply {
                Reply::Done { .. } => (
                    BlogCreation::Committing { id },
                    Step::Run(Statement::Commit),
                ),
                other => (BlogCreation::Finished, Step::Finish(Err(other.plain_refusal()))),
            },
            BlogCreation::Committing { id } => match reply {
                Reply::Done { .. } => (
                    BlogCreation::Returning { id },
                    Step::Run(Statement::SelectBlog { id }),
                ),
                other => (BlogCreation::Finished, Step::Finish(Err(other.plain_refusal()))),
            },
            BlogCreation::Returning { id } => match reply {
                Reply::BlogRows(rows) => (
                    BlogCreation::Finished,
                    Step::Finish(post_from_rows(id, rows)),
                ),
                other => (BlogCreation::Finished, Step::Finish(Err(other.refusal(id)))),
            },
            BlogCreation::Finished => (
                BlogCreation::Finished,
                Step::Finish(Err(RepositoryError::out_of_turn())),
            ),
        }
    }
}

/// The statement that finds the post `id`.
pub fn find(id: i32) -> (statement: Statement)
    ensures
        statement@ == (StatementView::SelectBlog { id: id as int }),
{
    Statement::SelectBlog { id }
}

/// What finding the post `id` comes to, by the reply to [`find`]: the post that
/// the rows describe, and `NotFound` where there is no row.
pub open spec fn found_in(reply: ReplyView, id: int) -> Result<BlogView, ErrorView> {
    match reply {
        ReplyView::BlogRows(rows) => post_in(rows, id),
        _ => Err(refusal(reply, id)),
    }
}

/// Makes the result of finding the post `id` from the reply to [`find`].
pub fn found(id: i32, reply: Reply) -> (result: Result<BlogEntity, RepositoryError>)
    ensures
        result_view(result) == found_in(reply@, id as int),
{
    match reply {
        Reply::BlogRows(rows) => post_from_rows(id, rows),
        other => Err(other.refusal(id)),
    }
}

/// The statement that lists all posts.
pub fn all() -> (statement: Statement)
    ensures
        statement@ == StatementView::SelectBlogs,
{
    Statement::SelectBlogs
}

/// What listing all posts comes to, by the reply to [`all`]: the posts that the
/// rows fold into, in the order in which the rows first name them.
pub open spec fn listed_in(reply: ReplyView) -> Result<Seq<BlogView>, ErrorView> {
    match reply {
        ReplyView::BlogRows(rows) => Ok(folded(rows)),
        _ => Err(plain_refusal(reply)),
    }
}

/// Makes the result of listing all posts from the reply to [`all`].
pub fn listed(reply: Reply) -> (result: Result<Vec<BlogEntity>, RepositoryError>)
    ensures
        listing_view(result) == listed_in(reply@),
{
    match reply {
        Reply::BlogRows(rows) => Ok(fold_entities(rows)),
        other => Err(other.plain_refusal()),
    }
}

/// A failure ends an operation where it stands: whatever a creation, an update
/// or a deletion waits for, on a reply that reports a failure it finishes with
/// an error and names no further statement. So nothing is committed after a
/// failure.
pub proof fn lemma_failure_ends_the_operation(
    creation: BlogCreationView,
    update: BlogUpdateView,
    deletion: BlogDeletionView,
    error: StorageErrorView,
)
    ensures
        creation.next(ReplyView::Failed(error)).0 == BlogCreationView::Finished,
        creation.next(ReplyView::Failed(error)).1 matches StepView::Finish(Err(_)),
        update.next(ReplyView::Failed(error)).0 == BlogUpdateView::Finished,
        update.next(ReplyView::Failed(error)).1 matches StepView::Finish(Err(_)),
        deletion.next(ReplyView::Failed(error)).0 == BlogDeletionView::Finished,
        deletion.next(ReplyView::Failed(error)).1 matches StepView::Finish(Err(_)),
{
}

/// The statements of an update that gives no tags, where nothing fails:
/// `Begin`, the reading of the post, the writing of title and body, `Commit`,
/// and the reading of the post. None touches an association.
pub proof fn lemma_update_without_tags(
    id: int,
    title: Option<Seq<char>>,
    body: Option<Seq<char>>,
    current: Seq<RowView>,
    written: BlogRowView,
    after: Seq<RowView>,
)
    requires
        current.len() > 0,
    ensures
        ({
            let payload = UpdateBlogView { title, body, tags: None };
            let opening = BlogUpdateView::Opening { id, payload };
            let (reading, first) = opening.next(ReplyView::Done { rows_affected: 0 });
            let (writing, second) = reading.next(ReplyView::BlogRows(current));
            let (committing, third) = writing.next(ReplyView::Blog(written));
            let (returning, fourth) = committing.next(ReplyView::Done { rows_affected: 0 });
            let (finished, last) = returning.next(ReplyView::BlogRows(after));
            &&& first == StepView::<BlogView>::Run(StatementView::SelectBlog { id })
            &&& second == StepView::<BlogView>::Run(
                StatementView::UpdateBlog {
                    id,
                    title: match title {
                        Some(title) => title,
                        None => post_in(current, id)->Ok_0.title,
                    },
                    body: match body {
                        Some(body) => body,
                        None => post_in(current, id)->Ok_0.body,
                    },
                },
            )
            &&& third == StepView::<BlogView>::Run(StatementView::Commit)
            &&& fourth == StepView::<BlogView>::Run(StatementView::SelectBlog { id })
            &&& last == StepView::Finish(post_in(after, id))
            &&& finished == BlogUpdateView::Finished
        }),
{
}

/// The statements of an update that gives tags, where nothing fails: `Begin`,
/// the reading of the post, the writing of title and body, the removal of every
/// association of the post, the insertion of one association for each
/// identifier given, `Commit`, and the reading of the post.
pub proof fn lemma_update_with_tags(
    id: int,
    title: Option<Seq<char>>,
    body: Option<Seq<char>>,
    tags: Seq<int>,
    current: Seq<RowView>,
    written: BlogRowView,
    after: Seq<RowView>,
)
    requires
        current.len() > 0,
    ensures
        ({
            let payload = UpdateBlogView { title, body, tags: Some(tags) };
            let opening = BlogUpdateView::Opening { id, payload };
            let done = ReplyView::Done { rows_affected: 0 };
            let (reading, first) = opening.next(done);
            let (writing, second) = reading.next(ReplyView::BlogRows(current));
            let (clearing, third) = writing.next(ReplyView::Blog(written));
            let (attaching, fourth) = clearing.next(done);
            let (committing, fifth) = attaching.next(done);
            let (returning, sixth) = committing.next(done);
            let (finished, last) = returning.next(ReplyView::BlogRows(after));
            &&& first == StepView::<BlogView>::Run(StatementView::SelectBlog { id })
            &&& second is Run
            &&& third == StepView::<BlogView>::Run(StatementView::DeleteBlogTags { blog_id: id })
            &&& fourth == StepView::<BlogView>::Run(
                StatementView::InsertBlogTags { blog_id: id, tag_ids: tags },
            )
            &&& fifth == StepView::<BlogView>::Run(StatementView::Commit)
            &&& sixth == StepView::<BlogView>::Run(StatementView::SelectBlog { id })
            &&& last == StepView::Finish(post_in(after, id))
            &&& finished == BlogUpdateView::Finished
        }),
{
}

/// The statements of a creation, where nothing fails: `Begin`, the insertion of
/// the post, the insertion of its associations under the identifier that the
/// engine gave, `Commit`, and the reading of the post under that identifier.
pub proof fn lemma_creation(payload: CreateBlogView, inserted: BlogRowView, after: Seq<RowView>)
    ensures
        ({
            let opening = BlogCreationView::Opening { payload };
            let done = ReplyView::Done { rows_affected: 0 };
            let (inserting, first) = opening.next(done);
            let (attaching, second) = inserting.next(ReplyView::Blog(inserted));
            let (committing, third) = attaching.next(done);
            let (returning, fourth) = committing.next(done);
            let (finished, last) = returning.next(ReplyView::BlogRows(after));
            &&& first == StepView::<BlogView>::Run(
                StatementView::InsertBlog { title: payload.title, body: payload.body },
            )
            &&& second == StepView::<BlogView>::Run(
                StatementView::InsertBlogTags { blog_id: inserted.id, tag_ids: payload.tags },
            )
            &&& third == StepView::<BlogView>::Run(StatementView::Commit)
            &&& fourth == StepView::<BlogView>::Run(StatementView::SelectBlog { id: inserted.id })
            &&& last == StepView::Finish(post_in(after, inserted.id))
            &&& finished == BlogCreationView::Finished
        }),
{
}

/// The statements of a deletion, where nothing fails and the post is there:
/// `Begin`, the removal of the post's associations, the removal of the post,
/// and `Commit`. Where the removal of the post removes nothing, the deletion
/// ends with `NotFound`, and `Commit` is not sent.
pub proof fn lemma_deletion(id: int, associations: nat, removed: nat)
    ensures
        ({
            let opening = BlogDeletionView::Opening { id };
            let (clearing, first) = opening.next(ReplyView::Done { rows_affected: 0 });
            let (removing, second) = clearing.next(ReplyView::Done { rows_affected: associations });
            let (committing, third) = removing.next(ReplyView::Done { rows_affected: removed });
            let (finished, last) = committing.next(ReplyView::Done { rows_affected: 0 });
            &&& first == StepView::<()>::Run(StatementView::DeleteBlogTags { blog_id: id })
            &&& second == StepView::<()>::Run(StatementView::DeleteBlog { id })
            &&& removed == 0 ==> third == StepView::<()>::Finish(Err(ErrorView::NotFound(id)))
            &&& removed > 0 ==> third == StepView::<()>::Run(StatementView::Commit) && last
                == StepView::<()>::Finish(Ok(())) && finished == BlogDeletionView::Finished
        }),
{
}

/// What is not there is not found, as far as the replies decide it. Where the
/// engine has no row of the post `id`, finding it is `NotFound`, and an update
/// ends with `NotFound` when it has read the post; where the engine removes no
/// post, a deletion ends with `NotFound`; and where the engine has no row at
/// all, the listing is empty and no failure.
pub proof fn lemma_absent_post_is_not_found(id: int, payload: UpdateBlogView)
    ensures
        found_in(ReplyView::BlogRows(Seq::empty()), id) == Err::<BlogView, ErrorView>(
            ErrorView::NotFound(id),
        ),
        (BlogUpdateView::Reading { id, payload }).next(ReplyView::BlogRows(Seq::empty()))
            == BlogUpdateView::stop(Err(ErrorView::NotFound(id))),
        (BlogDeletionView::Removing { id }).next(ReplyView::Done { rows_affected: 0 })
            == BlogDeletionView::stop(Err(ErrorView::NotFound(id))),
        listed_in(ReplyView::BlogRows(Seq::empty())) == Ok::<Seq<BlogView>, ErrorView>(
            Seq::empty(),
        ),
{
    assert(folded(Seq::<RowView>::empty()) =~= Seq::<BlogView>::empty());
}

/// A creation reads its post back as a finding does: of the same rows, the
/// result of the creation of the post `id` and the result of finding the post
/// `id` are the same.
pub proof fn lemma_creation_reads_as_finding(id: int, rows: Seq<RowView>)
    ensures
        (BlogCreationView::Returning { id }).next(ReplyView::BlogRows(rows)).1 == StepView::Finish(
            found_in(ReplyView::BlogRows(rows), id),
        ),
{
}

} // verus!
