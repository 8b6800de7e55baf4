//! The answers to the operations on tags, and what a new tag is made of.

use vstd::prelude::*;

use crate::repositories::RepositoryError;
use crate::repositories::tag::Tag;
use crate::validation::check_length;
use crate::validation::length_check;
use crate::validation::ValidationError;
use super::CREATED;
use super::failure_status;
use super::NO_CONTENT;
use super::OK;
use super::respond;
use super::status_of;

verus! {

/// What a new tag is made of: its name.
#[derive(Debug, PartialEq, Eq)]
pub struct CreateTag {
    pub name: String,
}

impl View for CreateTag {
    type V = Seq<char>;

    open spec fn view(&self) -> Seq<char> {
        self.name@
    }
}

impl CreateTag {
    /// Whether the name has a length that a name may have.
    pub fn validate(&self) -> (result: Result<(), ValidationError>)
        ensures
            result == length_check(self@),
    {
        check_length(&self.name)
    }
}

/// The answer to the creation of a tag: `CREATED` with the tag.
pub fn create_tag(outcome: Result<Tag, RepositoryError>) -> (response: Result<(u16, Tag), u16>)
    ensures
        response == match outcome {
            Ok(tag) => Ok::<(u16, Tag), u16>((CREATED, tag)),
            Err(error) => Err::<(u16, Tag), u16>(failure_status(error@)),
        },
{
    respond(outcome, CREATED)
}

/// The answer to the listing of all tags: `OK` with the tags.
pub fn all_tag(outcome: Result<Vec<Tag>, RepositoryError>) -> (response: Result<
    (u16, Vec<Tag>),
    u16,
>)
    ensures
        response == match outcome {
            Ok(tags) => Ok::<(u16, Vec<Tag>), u16>((OK, tags)),
            Err(error) => Err::<(u16, Vec<Tag>), u16>(failure_status(error@)),
        },
{
    respond(outcome, OK)
}

/// The answer to the deletion of a tag: `NO_CONTENT`.
pub fn delete_tag(outcome: Result<(), RepositoryError>) -> (status: u16)
    ensures
        status == match outcome {
            Ok(_) => NO_CONTENT,
            Err(error) => failure_status(error@),
        },
{
    match outcome {
        Ok(_) => NO_CONTENT,
        Err(error) => status_of(&error),
    }
}

} // verus!
