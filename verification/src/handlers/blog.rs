//! The answers to the operations on posts.

use vstd::prelude::*;

use crate::repositories::blog::BlogEntity;
use crate::repositories::RepositoryError;
use super::CREATED;
use super::failure_status;
use super::NO_CONTENT;
use super::OK;
use super::respond;
use super::status_of;

verus! {

/// The answer to the creation of a post: `CREATED` with the post.
pub fn create_blog(outcome: Result<BlogEntity, RepositoryError>) -> (response: Result<
    (u16, BlogEntity),
    u16,
>)
    ensures
        response == match outcome {
            Ok(post) => Ok::<(u16, BlogEntity), u16>((CREATED, post)),
            Err(error) => Err::<(u16, BlogEntity), u16>(failure_status(error@)),
        },
{
    respond(outcome, CREATED)
}

/// The answer to the finding of a post: `OK` with the post.
pub fn find_blog(outcome: Result<BlogEntity, RepositoryError>) -> (response: Result<
    (u16, BlogEntity),
    u16,
>)
    ensures
        response == match outcome {
            Ok(post) => Ok::<(u16, BlogEntity), u16>((OK, post)),
            Err(error) => Err::<(u16, BlogEntity), u16>(failure_status(error@)),
        },
{
    respond(outcome, OK)
}

/// The answer to the listing of all posts: `OK` with the posts.
pub fn all_blog(outcome: Result<Vec<BlogEntity>, RepositoryError>) -> (response: Result<
    (u16, Vec<BlogEntity>),
    u16,
>)
    ensures
        response == match outcome {
            Ok(posts) => Ok::<(u16, Vec<BlogEntity>), u16>((OK, posts)),
            Err(error) => Err::<(u16, Vec<BlogEntity>), u16>(failure_status(error@)),
        },
{
    respond(outcome, OK)
}

/// The answer to the update of a post: `CREATED` with the post as it now
/// stands.
pub fn update_blog(outcome: Result<BlogEntity, RepositoryError>) -> (response: Result<
    (u16, BlogEntity),
    u16,
>)
    ensures
        response == match outcome {
            Ok(post) => Ok::<(u16, BlogEntity), u16>((CREATED, post)),
            Err(error) => Err::<(u16, BlogEntity), u16>(failure_status(error@)),
        },
{
    respond(outcome, CREATED)
}

/// The answer to the deletion of a post: `NO_CONTENT`.
pub fn delete_blog(outcome: Result<(), RepositoryError>) -> (status: u16)
    ensures
        status == match outcome {
            Ok(_) => NO_CONTENT,
            Err(error) => failure_status(error@),
        },
{
    match outcome {
        Ok(_) => NO_CONTENT,
        Err(error) => status_of(&error),
    }
}

} // verus!
