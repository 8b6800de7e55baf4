//! The persistent tag store: what it asks of the storage engine, and what it
//! makes of the answers.
//!
//! Creating a tag takes two statements: it looks the name up, and inserts the
//! tag where the name is free. The two do not run in one transaction, so of
//! two creations of one name at the same time both can find the name free;
//! the second insertion then fails in the engine, and ends in `Unexpected`.
//! Listing the tags and deleting one take one statement each.

use vstd::prelude::*;

use super::super::ErrorView;
use super::super::RepositoryError;
use super::super::result_view;
use super::super::storage::out_of_turn;
use super::super::storage::plain_refusal;
use super::super::storage::refusal;
use super::super::storage::Reply;
use super::super::storage::ReplyView;
use super::super::storage::Statement;
use super::super::storage::StatementView;
use super::super::storage::Step;
use super::super::storage::StepView;
use super::listing_view;
use super::Tag;
use super::TagView;

verus! {

/// The creation of a tag, by what it waits for.
pub enum TagCreationView {
    Looking { name: Seq<char> },
    Inserting,
    Finished,
}

/// The creation of a tag, by what it waits for.
#[derive(Debug, PartialEq, Eq)]
pub enum TagCreation {
    /// The tag of this name was asked for.
    Looking { name: String },
    /// The tag was sent.
    Inserting,
    /// The creation has finished.
    Finished,
}

impl View for TagCreation {
    type V = TagCreationView;

    open spec fn view(&self) -> TagCreationView {
        match self {
            TagCreation::Looking { name } => TagCreationView::Looking { name: name@ },
            TagCreation::Inserting => TagCreationView::Inserting,
            TagCreation::Finished => TagCreationView::Finished,
        }
    }
}

impl TagCreationView {
    /// The end of the creation, with its result.
    pub open spec fn stop(result: Result<TagView, ErrorView>) -> (
        TagCreationView,
        StepView<TagView>,
    ) {
        (TagCreationView::Finished, StepView::Finish(result))
    }

    /// What the creation does with a reply. Where a tag has the name, the
    /// creation ends with `Duplicate` and that tag's identifier, and nothing is
    /// inserted. Where none has, the tag is inserted, and the tag that the
    /// engine hands back is the result.
    pub open spec fn next(self, reply: ReplyView) -> (TagCreationView, StepView<TagView>) {
        match self {
            TagCreationView::Looking { name } => match reply {
                ReplyView::TagFound(Some(tag)) => Self::stop(Err(ErrorView::Duplicate(tag.id))),
                ReplyView::TagFound(None) => (
                    TagCreationView::Inserting,
                    StepView::Run(StatementView::InsertTag { name }),
                ),
                _ => Self::stop(Err(plain_refusal(reply))),
            },
            TagCreationView::Inserting => match reply {
                ReplyView::Tag(tag) => Self::stop(Ok(tag)),
                _ => Self::stop(Err(plain_refusal(reply))),
            },
            TagCreationView::Finished => Self::stop(Err(out_of_turn())),
        }
    }
}

impl TagCreation {
    /// Begins the creation of a tag: the first statement looks its name up.
    pub fn begin(name: String) -> (start: (Self, Statement))
        ensures
            start.0@ == (TagCreationView::Looking { name: name@ }),
            start.1@ == (StatementView::SelectTagByName { name: name@ }),
    {
        let lookup = Statement::SelectTagByName { name: name.clone() };
        (TagCreation::Looking { name }, lookup)
    }

    /// Takes the reply to the statement that was named last, and names the next
    /// one or finishes.
    pub fn advance(self, reply: Reply) -> (next: (Self, Step<Tag>))
        ensures
            (next.0@, next.1@) == self@.next(reply@),
    {
        match self {
            TagCreation::Looking { name } => match reply {
                Reply::TagFound(Some(tag)) => (
                    TagCreation::Finished,
                    Step::Finish(Err(RepositoryError::Duplicate(tag.id))),
                ),
                Reply::TagFound(None) => (
                    TagCreation::Inserting,
                    Step::Run(Statement::InsertTag { name }),
                ),
                other => (TagCreation::Finished, Step::Finish(Err(other.plain_refusal()))),
            },
            TagCreation::Inserting => match reply {
                Reply::Tag(tag) => (TagCreation::Finished, Step::Finish(Ok(tag))),
                other => (TagCreation::Finished, Step::Finish(Err(other.plain_refusal()))),
            },
            TagCreation::Finished => (
                TagCreation::Finished,
                Step::Finish(Err(RepositoryError::out_of_turn())),
            ),
        }
    }
}

/// The statement that lists all tags.
pub fn all() -> (statement: Statement)
    ensures
        statement@ == StatementView::SelectTags,
{
    Statement::SelectTags
}

/// What listing all tags comes to, by the reply to [`all`]: the tags as the
/// engine hands them out.
pub open spec fn listed_in(reply: ReplyView) -> Result<Seq<TagView>, ErrorView> {
    match reply {
        ReplyView::Tags(tags) => Ok(tags),
        _ => Err(plain_refusal(reply)),
    }
}

/// Makes the result of listing all tags from the reply to [`all`].
pub fn listed(reply: Reply) -> (result: Result<Vec<Tag>, RepositoryError>)
    ensures
        listing_view(result) == listed_in(reply@),
{
    match reply {
        Reply::Tags(tags) => Ok(tags),
        other => Err(other.plain_refusal()),
    }
}

/// The statement that deletes the tag `id`, and with it every association that
/// names the tag.
pub fn delete(id: i32) -> (statement: Statement)
    ensures
        statement@ == (StatementView::DeleteTag { id: id as int }),
{
    Statement::DeleteTag { id }
}

/// What deleting the tag `id` comes to, by the reply to [`delete`]: `NotFound`
/// where no tag was removed.
pub open spec fn deleted_in(reply: ReplyView, id: int) -> Result<(), ErrorView> {
    match reply {
        ReplyView::Done { rows_affected } => if rows_affected == 0 {
            Err(ErrorView::NotFound(id))
        } else {
            Ok(())
        },
        _ => Err(refusal(reply, id)),
    }
}

/// Makes the result of deleting the tag `id` from the reply to [`delete`].
pub fn deleted(id: i32, reply: Reply) -> (result: Result<(), RepositoryError>)
    ensures
        result_view(result) == deleted_in(reply@, id as int),
{
    match reply {
        Reply::Done { rows_affected } => if rows_affected == 0 {
            Err(RepositoryError::NotFound(id))
        } else {
            Ok(())
        },
        other => Err(other.refusal(id)),
    }
}

} // verus!
