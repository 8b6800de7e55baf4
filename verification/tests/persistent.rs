use backend::repositories::blog;
use backend::repositories::blog::persistent::BlogCreation;
use backend::repositories::blog::persistent::BlogDeletion;
use backend::repositories::blog::persistent::BlogUpdate;
use backend::repositories::blog::persistent::UNASSIGNED;
use backend::repositories::blog::BlogEntity;
use backend::repositories::blog::BlogFromRow;
use backend::repositories::blog::BlogWithTagFromRow;
use backend::repositories::blog::CreateBlog;
use backend::repositories::blog::UpdateBlog;
use backend::repositories::storage::Reply;
use backend::repositories::storage::Statement;
use backend::repositories::storage::Step;
use backend::repositories::storage::StorageError;
use backend::repositories::storage::StorageErrorKind;
use backend::repositories::tag;
use backend::repositories::tag::persistent::TagCreation;
use backend::repositories::tag::Tag;
use backend::repositories::RepositoryError;

const DONE: Reply = Reply::Done { rows_affected: 0 };

fn failed(kind: StorageErrorKind, detail: &str) -> Reply {
    Reply::Failed(StorageError { kind, detail: detail.to_string() })
}

fn row(id: i32, text: &str, tag: Option<(i32, &str)>) -> BlogWithTagFromRow {
    BlogWithTagFromRow {
        id,
        title: text.to_string(),
        body: text.to_string(),
        label_id: tag.map(|(id, _)| id),
        tag_name: tag.map(|(_, name)| name.to_string()),
    }
}

fn stored(id: i32, text: &str) -> Reply {
    Reply::Blog(BlogFromRow { id, title: text.to_string(), body: text.to_string() })
}

fn out_of_turn() -> RepositoryError {
    RepositoryError::Unexpected("the storage engine answered out of turn".to_string())
}

#[test]
fn creation_runs_its_statements_in_one_transaction() {
    let payload =
        CreateBlog { title: "title".to_string(), body: "body".to_string(), tags: vec![2, 1, 2] };
    let (machine, statement) = BlogCreation::begin(payload);
    assert_eq!(statement, Statement::Begin);
    let (machine, step) = machine.advance(DONE);
    assert_eq!(
        step,
        Step::Run(Statement::InsertBlog { title: "title".to_string(), body: "body".to_string() })
    );
    let (machine, step) = machine.advance(stored(41, "title"));
    assert_eq!(step, Step::Run(Statement::InsertBlogTags { blog_id: 41, tag_ids: vec![2, 1, 2] }));
    let (machine, step) = machine.advance(Reply::Done { rows_affected: 3 });
    assert_eq!(step, Step::Run(Statement::Commit));
    let (machine, step) = machine.advance(DONE);
    assert_eq!(step, Step::Run(Statement::SelectBlog { id: 41 }));
    let rows = vec![row(41, "title", Some((2, "two"))), row(41, "title", Some((1, "one")))];
    let (machine, step) = machine.advance(Reply::BlogRows(rows));
    assert_eq!(
        step,
        Step::Finish(Ok(BlogEntity {
            id: 41,
            title: "title".to_string(),
            body: "title".to_string(),
            tags: vec![
                Tag { id: 2, name: "two".to_string() },
                Tag { id: 1, name: "one".to_string() },
            ],
        }))
    );
    assert_eq!(machine, BlogCreation::Finished);
}

#[test]
fn creation_of_a_refused_post_is_not_found() {
    let payload = CreateBlog { title: "".to_string(), body: "body".to_string(), tags: vec![] };
    let (machine, _) = BlogCreation::begin(payload);
    let (machine, _) = machine.advance(DONE);
    let (machine, step) = machine.advance(failed(StorageErrorKind::Rejected, "check violation"));
    assert_eq!(step, Step::Finish(Err(RepositoryError::NotFound(UNASSIGNED))));
    assert_eq!(UNASSIGNED, 0);
    assert_eq!(machine, BlogCreation::Finished);
}

#[test]
fn creation_that_gets_no_row_back_is_not_found() {
    let payload = CreateBlog { title: "t".to_string(), body: "b".to_string(), tags: vec![] };
    let (machine, _) = BlogCreation::begin(payload);
    let (machine, _) = machine.advance(DONE);
    let (_, step) = machine.advance(failed(StorageErrorKind::RowNotFound, "no rows"));
    assert_eq!(step, Step::Finish(Err(RepositoryError::NotFound(0))));
}

#[test]
fn creation_that_loses_the_connection_is_unexpected() {
    let payload = CreateBlog { title: "t".to_string(), body: "b".to_string(), tags: vec![] };
    let (machine, _) = BlogCreation::begin(payload);
    let (machine, _) = machine.advance(DONE);
    let (_, step) = machine.advance(failed(StorageErrorKind::Other, "connection reset"));
    assert_eq!(
        step,
        Step::Finish(Err(RepositoryError::Unexpected("connection reset".to_string())))
    );
}

#[test]
fn creation_with_an_unknown_tag_is_unexpected() {
    let payload = CreateBlog { title: "t".to_string(), body: "b".to_string(), tags: vec![99] };
    let (machine, _) = BlogCreation::begin(payload);
    let (machine, _) = machine.advance(DONE);
    let (machine, _) = machine.advance(stored(5, "t"));
    let (machine, step) =
        machine.advance(failed(StorageErrorKind::Rejected, "foreign key violation"));
    assert_eq!(
        step,
        Step::Finish(Err(RepositoryError::Unexpected("foreign key violation".to_string())))
    );
    assert_eq!(machine, BlogCreation::Finished);
}

#[test]
fn creation_whose_post_cannot_be_read_back_is_not_found() {
    let payload = CreateBlog { title: "t".to_string(), body: "b".to_string(), tags: vec![] };
    let (machine, _) = BlogCreation::begin(payload);
    let (machine, _) = machine.advance(DONE);
    let (machine, _) = machine.advance(stored(5, "t"));
    let (machine, _) = machine.advance(DONE);
    let (machine, _) = machine.advance(DONE);
    let (_, step) = machine.advance(Reply::BlogRows(vec![]));
    assert_eq!(step, Step::Finish(Err(RepositoryError::NotFound(5))));
}

#[test]
fn creation_that_cannot_begin_is_unexpected() {
    let payload = CreateBlog { title: "t".to_string(), body: "b".to_string(), tags: vec![] };
    let (machine, _) = BlogCreation::begin(payload);
    let (machine, step) = machine.advance(failed(StorageErrorKind::Other, "pool timed out"));
    assert_eq!(step, Step::Finish(Err(RepositoryError::Unexpected("pool timed out".to_string()))));
    let (_, step) = machine.advance(DONE);
    assert_eq!(step, Step::Finish(Err(out_of_turn())));
}

#[test]
fn update_without_tags_touches_no_association() {
    let payload = UpdateBlog { title: Some("new".to_string()), body: None, tags: None };
    let (machine, statement) = BlogUpdate::begin(7, payload);
    assert_eq!(statement, Statement::Begin);
    let (machine, step) = machine.advance(DONE);
    assert_eq!(step, Step::Run(Statement::SelectBlog { id: 7 }));
    let (machine, step) =
        machine.advance(Reply::BlogRows(vec![row(7, "old", Some((1, "one")))]));
    assert_eq!(
        step,
        Step::Run(Statement::UpdateBlog {
            id: 7,
            title: "new".to_string(),
            body: "old".to_string()
        })
    );
    let (machine, step) = machine.advance(stored(7, "new"));
    assert_eq!(step, Step::Run(Statement::Commit));
    let (machine, step) = machine.advance(DONE);
    assert_eq!(step, Step::Run(Statement::SelectBlog { id: 7 }));
    let rows = vec![BlogWithTagFromRow {
        id: 7,
        title: "new".to_string(),
        body: "old".to_string(),
        label_id: Some(1),
        tag_name: Some("one".to_string()),
    }];
    let (machine, step) = machine.advance(Reply::BlogRows(rows));
    assert_eq!(
        step,
        Step::Finish(Ok(BlogEntity {
            id: 7,
            title: "new".to_string(),
            body: "old".to_string(),
            tags: vec![Tag { id: 1, name: "one".to_string() }],
        }))
    );
    assert_eq!(machine, BlogUpdate::Finished);
}

#[test]
fn update_without_fields_writes_the_post_as_it_is() {
    let payload = UpdateBlog { title: None, body: None, tags: None };
    let (machine, _) = BlogUpdate::begin(7, payload);
    let (machine, _) = machine.advance(DONE);
    let current = vec![BlogWithTagFromRow {
        id: 7,
        title: "title".to_string(),
        body: "body".to_string(),
        label_id: None,
        tag_name: None,
    }];
    let (_, step) = machine.advance(Reply::BlogRows(current));
    assert_eq!(
        step,
        Step::Run(Statement::UpdateBlog {
            id: 7,
            title: "title".to_string(),
            body: "body".to_string()
        })
    );
}

#[test]
fn update_with_tags_replaces_the_associations() {
    let payload = UpdateBlog { title: None, body: Some("text".to_string()), tags: Some(vec![]) };
    let (machine, _) = BlogUpdate::begin(7, payload);
    let (machine, _) = machine.advance(DONE);
    let (machine, step) =
        machine.advance(Reply::BlogRows(vec![row(7, "old", Some((1, "one")))]));
    assert_eq!(
        step,
        Step::Run(Statement::UpdateBlog {
            id: 7,
            title: "old".to_string(),
            body: "text".to_string()
        })
    );
    let (machine, step) = machine.advance(stored(7, "old"));
    assert_eq!(step, Step::Run(Statement::DeleteBlogTags { blog_id: 7 }));
    let (machine, step) = machine.advance(Reply::Done { rows_affected: 1 });
    assert_eq!(step, Step::Run(Statement::InsertBlogTags { blog_id: 7, tag_ids: vec![] }));
    let (machine, step) = machine.advance(DONE);
    assert_eq!(step, Step::Run(Statement::Commit));
    let (machine, step) = machine.advance(DONE);
    assert_eq!(step, Step::Run(Statement::SelectBlog { id: 7 }));
    let (_, step) = machine.advance(Reply::BlogRows(vec![row(7, "old", None)]));
    assert_eq!(
        step,
        Step::Finish(Ok(BlogEntity {
            id: 7,
            title: "old".to_string(),
            body: "old".to_string(),
            tags: vec![],
        }))
    );
}

#[test]
fn update_of_an_absent_post_is_not_found_before_anything_is_written() {
    let payload = UpdateBlog { title: Some("new".to_string()), body: None, tags: Some(vec![1]) };
    let (machine, _) = BlogUpdate::begin(7, payload);
    let (machine, _) = machine.advance(DONE);
    let (machine, step) = machine.advance(Reply::BlogRows(vec![]));
    assert_eq!(step, Step::Finish(Err(RepositoryError::NotFound(7))));
    assert_eq!(machine, BlogUpdate::Finished);
}

#[test]
fn update_that_fails_ends_without_commit() {
    let payload = UpdateBlog { title: None, body: None, tags: Some(vec![99]) };
    let (machine, _) = BlogUpdate::begin(7, payload);
    let (machine, _) = machine.advance(DONE);
    let (machine, _) = machine.advance(Reply::BlogRows(vec![row(7, "old", None)]));
    let (machine, _) = machine.advance(stored(7, "old"));
    let (machine, _) = machine.advance(DONE);
    let (machine, step) =
        machine.advance(failed(StorageErrorKind::Rejected, "foreign key violation"));
    assert_eq!(
        step,
        Step::Finish(Err(RepositoryError::Unexpected("foreign key violation".to_string())))
    );
    assert_eq!(machine, BlogUpdate::Finished);
}

#[test]
fn update_whose_row_is_missing_is_not_found() {
    let payload = UpdateBlog { title: None, body: None, tags: None };
    let (machine, _) = BlogUpdate::begin(7, payload);
    let (machine, _) = machine.advance(DONE);
    let (machine, _) = machine.advance(Reply::BlogRows(vec![row(7, "old", None)]));
    let (_, step) = machine.advance(failed(StorageErrorKind::RowNotFound, "no rows"));
    assert_eq!(step, Step::Finish(Err(RepositoryError::NotFound(7))));
}

#[test]
fn update_answered_out_of_turn_is_unexpected() {
    let payload = UpdateBlog { title: None, body: None, tags: None };
    let (machine, _) = BlogUpdate::begin(7, payload);
    let (machine, step) = machine.advance(Reply::Tags(vec![]));
    assert_eq!(step, Step::Finish(Err(out_of_turn())));
    assert_eq!(machine, BlogUpdate::Finished);
}

#[test]
fn deletion_removes_associations_then_the_post() {
    let (machine, statement) = BlogDeletion::begin(3);
    assert_eq!(statement, Statement::Begin);
    let (machine, step) = machine.advance(DONE);
    assert_eq!(step, Step::Run(Statement::DeleteBlogTags { blog_id: 3 }));
    let (machine, step) = machine.advance(Reply::Done { rows_affected: 2 });
    assert_eq!(step, Step::Run(Statement::DeleteBlog { id: 3 }));
    let (machine, step) = machine.advance(Reply::Done { rows_affected: 1 });
    assert_eq!(step, Step::Run(Statement::Commit));
    let (machine, step) = machine.advance(DONE);
    assert_eq!(step, Step::Finish(Ok(())));
    assert_eq!(machine, BlogDeletion::Finished);
}

#[test]
fn deletion_of_a_post_without_associations_succeeds() {
    let (machine, _) = BlogDeletion::begin(3);
    let (machine, _) = machine.advance(DONE);
    let (machine, step) = machine.advance(Reply::Done { rows_affected: 0 });
    assert_eq!(step, Step::Run(Statement::DeleteBlog { id: 3 }));
    let (_, step) = machine.advance(Reply::Done { rows_affected: 1 });
    assert_eq!(step, Step::Run(Statement::Commit));
}

#[test]
fn deletion_of_an_absent_post_is_not_found_and_is_not_committed() {
    let (machine, _) = BlogDeletion::begin(3);
    let (machine, _) = machine.advance(DONE);
    let (machine, _) = machine.advance(Reply::Done { rows_affected: 0 });
    let (machine, step) = machine.advance(Reply::Done { rows_affected: 0 });
    assert_eq!(step, Step::Finish(Err(RepositoryError::NotFound(3))));
    assert_eq!(machine, BlogDeletion::Finished);
}

#[test]
fn deletion_that_fails_is_classified() {
    let (machine, _) = BlogDeletion::begin(3);
    let (machine, _) = machine.advance(DONE);
    let (_, step) = machine.advance(failed(StorageErrorKind::Other, "deadlock"));
    assert_eq!(step, Step::Finish(Err(RepositoryError::Unexpected("deadlock".to_string()))));
    let (machine, _) = BlogDeletion::begin(3);
    let (machine, _) = machine.advance(DONE);
    let (machine, _) = machine.advance(DONE);
    let (_, step) = machine.advance(failed(StorageErrorKind::RowNotFound, "no rows"));
    assert_eq!(step, Step::Finish(Err(RepositoryError::NotFound(3))));
}

#[test]
fn finding_folds_the_rows_of_the_post() {
    assert_eq!(blog::persistent::find(4), Statement::SelectBlog { id: 4 });
    let rows = vec![row(4, "four", Some((1, "one"))), row(4, "four", Some((2, "two")))];
    assert_eq!(
        blog::persistent::found(4, Reply::BlogRows(rows)),
        Ok(BlogEntity {
            id: 4,
            title: "four".to_string(),
            body: "four".to_string(),
            tags: vec![
                Tag { id: 1, name: "one".to_string() },
                Tag { id: 2, name: "two".to_string() },
            ],
        })
    );
    assert_eq!(
        blog::persistent::found(4, Reply::BlogRows(vec![])),
        Err(RepositoryError::NotFound(4))
    );
    assert_eq!(
        blog::persistent::found(4, failed(StorageErrorKind::RowNotFound, "no rows")),
        Err(RepositoryError::NotFound(4))
    );
    assert_eq!(
        blog::persistent::found(4, failed(StorageErrorKind::Other, "broken pipe")),
        Err(RepositoryError::Unexpected("broken pipe".to_string()))
    );
    assert_eq!(blog::persistent::found(4, DONE), Err(out_of_turn()));
}

#[test]
fn listing_folds_all_rows() {
    assert_eq!(blog::persistent::all(), Statement::SelectBlogs);
    let rows = vec![
        row(9, "nine", Some((1, "one"))),
        row(9, "nine", Some((2, "two"))),
        row(4, "four", None),
    ];
    assert_eq!(
        blog::persistent::listed(Reply::BlogRows(rows)),
        Ok(vec![
            BlogEntity {
                id: 9,
                title: "nine".to_string(),
                body: "nine".to_string(),
                tags: vec![
                    Tag { id: 1, name: "one".to_string() },
                    Tag { id: 2, name: "two".to_string() },
                ],
            },
            BlogEntity { id: 4, title: "four".to_string(), body: "four".to_string(), tags: vec![] },
        ])
    );
    assert_eq!(blog::persistent::listed(Reply::BlogRows(vec![])), Ok(vec![]));
    assert_eq!(
        blog::persistent::listed(failed(StorageErrorKind::RowNotFound, "no rows")),
        Err(RepositoryError::Unexpected("no rows".to_string()))
    );
}

#[test]
fn tag_creation_inserts_where_the_name_is_free() {
    let (machine, statement) = TagCreation::begin("rust".to_string());
    assert_eq!(statement, Statement::SelectTagByName { name: "rust".to_string() });
    let (machine, step) = machine.advance(Reply::TagFound(None));
    assert_eq!(step, Step::Run(Statement::InsertTag { name: "rust".to_string() }));
    let (machine, step) = machine.advance(Reply::Tag(Tag { id: 12, name: "rust".to_string() }));
    assert_eq!(step, Step::Finish(Ok(Tag { id: 12, name: "rust".to_string() })));
    assert_eq!(machine, TagCreation::Finished);
}

#[test]
fn tag_creation_under_a_taken_name_is_a_duplicate_and_inserts_nothing() {
    let (machine, _) = TagCreation::begin("rust".to_string());
    let (machine, step) =
        machine.advance(Reply::TagFound(Some(Tag { id: 12, name: "rust".to_string() })));
    assert_eq!(step, Step::Finish(Err(RepositoryError::Duplicate(12))));
    assert_eq!(machine, TagCreation::Finished);
}

#[test]
fn tag_creation_that_fails_is_unexpected() {
    let (machine, _) = TagCreation::begin("rust".to_string());
    let (machine, _) = machine.advance(Reply::TagFound(None));
    let (_, step) = machine.advance(failed(StorageErrorKind::Rejected, "unique violation"));
    assert_eq!(
        step,
        Step::Finish(Err(RepositoryError::Unexpected("unique violation".to_string())))
    );
    let (machine, _) = TagCreation::begin("rust".to_string());
    let (_, step) = machine.advance(failed(StorageErrorKind::RowNotFound, "no rows"));
    assert_eq!(step, Step::Finish(Err(RepositoryError::Unexpected("no rows".to_string()))));
}

#[test]
fn tag_listing_and_deletion() {
    assert_eq!(tag::persistent::all(), Statement::SelectTags);
    let tags = vec![Tag { id: 1, name: "a".to_string() }, Tag { id: 2, name: "b".to_string() }];
    assert_eq!(tag::persistent::listed(Reply::Tags(tags.clone())), Ok(tags));
    assert_eq!(tag::persistent::listed(DONE), Err(out_of_turn()));
    assert_eq!(tag::persistent::delete(2), Statement::DeleteTag { id: 2 });
    assert_eq!(tag::persistent::deleted(2, Reply::Done { rows_affected: 1 }), Ok(()));
    assert_eq!(
        tag::persistent::deleted(2, Reply::Done { rows_affected: 0 }),
        Err(RepositoryError::NotFound(2))
    );
    assert_eq!(
        tag::persistent::deleted(2, failed(StorageErrorKind::RowNotFound, "no rows")),
        Err(RepositoryError::NotFound(2))
    );
    assert_eq!(
        tag::persistent::deleted(2, failed(StorageErrorKind::Other, "broken pipe")),
        Err(RepositoryError::Unexpected("broken pipe".to_string()))
    );
}

#[test]
fn storage_failures_are_classified() {
    let missing = StorageError { kind: StorageErrorKind::RowNotFound, detail: "none".to_string() };
    assert_eq!(RepositoryError::from_storage(missing, 8), RepositoryError::NotFound(8));
    let refused = StorageError { kind: StorageErrorKind::Rejected, detail: "check".to_string() };
    assert_eq!(
        RepositoryError::from_storage(refused, 8),
        RepositoryError::Unexpected("check".to_string())
    );
    let missing = StorageError { kind: StorageErrorKind::RowNotFound, detail: "none".to_string() };
    assert_eq!(
        RepositoryError::unexpected(missing),
        RepositoryError::Unexpected("none".to_string())
    );
    assert_eq!(RepositoryError::out_of_turn(), out_of_turn());
    assert_eq!(
        RepositoryError::exhausted(),
        RepositoryError::Unexpected("no identifier is left".to_string())
    );
}
