//! Stores of posts and tags, and the errors they share.

use vstd::prelude::*;

pub mod blog;
pub mod storage;
pub mod tag;

verus! {

/// Why a store operation failed.
#[derive(Debug, PartialEq, Eq)]
pub enum RepositoryError {
    /// A failure of the storage layer that is neither of the other two.
    Unexpected(String),
    /// No post or tag has this identifier.
    NotFound(i32),
    /// A record with this identifier already holds the value that was to be
    /// unique.
    Duplicate(i32),
}

/// A [`RepositoryError`] as a mathematical value.
pub enum ErrorView {
    Unexpected(Seq<char>),
    NotFound(int),
    Duplicate(int),
}

impl View for RepositoryError {
    type V = ErrorView;

    open spec fn view(&self) -> ErrorView {
        match self {
            RepositoryError::Unexpected(detail) => ErrorView::Unexpected(detail@),
            RepositoryError::NotFound(id) => ErrorView::NotFound(*id as int),
            RepositoryError::Duplicate(id) => ErrorView::Duplicate(*id as int),
        }
    }
}

/// The error of a creation for which no identifier is left.
pub open spec fn exhausted() -> ErrorView {
    ErrorView::Unexpected("no identifier is left"@)
}

impl RepositoryError {
    /// The error of a creation for which no identifier is left.
    pub fn exhausted() -> (error: Self)
        ensures
            error@ == exhausted(),
    {
        RepositoryError::Unexpected("no identifier is left".to_owned())
    }
}

/// Whether a store keeps to its model in one operation. `before` and `after`
/// are the store before and after it, `result` is what it answered, and `model`
/// is what the operation comes to by the model: the store it leaves and the
/// answer. A store keeps to the model where it does as the model says; and
/// where it fails with `Unexpected`, as a storage layer can at any time, and
/// stays as it was.
pub open spec fn keeps_to<T, V>(
    before: T,
    after: T,
    result: Result<V, ErrorView>,
    model: (T, Result<V, ErrorView>),
) -> bool {
    ||| (after, result) == model
    ||| result matches Err(ErrorView::Unexpected(_)) && after == before
}

/// The result of a store operation, as a mathematical value.
pub open spec fn result_view<T: View>(result: Result<T, RepositoryError>) -> Result<
    T::V,
    ErrorView,
> {
    match result {
        Ok(value) => Ok(value@),
        Err(error) => Err(error@),
    }
}

} // verus!
