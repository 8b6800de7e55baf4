use backend::handlers::blog::all_blog;
use backend::handlers::blog::create_blog;
use backend::handlers::blog::delete_blog;
use backend::handlers::blog::find_blog;
use backend::handlers::blog::update_blog;
use backend::handlers::respond;
use backend::handlers::status_of;
use backend::handlers::tag::all_tag;
use backend::handlers::tag::create_tag;
use backend::handlers::tag::delete_tag;
use backend::handlers::tag::CreateTag;
use backend::repositories::blog::BlogEntity;
use backend::repositories::blog::CreateBlog;
use backend::repositories::blog::UpdateBlog;
use backend::repositories::tag::Tag;
use backend::repositories::tag::UpdateTag;
use backend::repositories::RepositoryError;
use backend::validation::check_length;
use backend::validation::ValidationError;

fn post() -> BlogEntity {
    BlogEntity { id: 1, title: "t".to_string(), body: "b".to_string(), tags: vec![] }
}

fn unexpected() -> RepositoryError {
    RepositoryError::Unexpected("secret detail".to_string())
}

#[test]
fn failures_have_their_status() {
    assert_eq!(status_of(&RepositoryError::NotFound(3)), 404);
    assert_eq!(status_of(&RepositoryError::Duplicate(3)), 500);
    assert_eq!(status_of(&unexpected()), 500);
}

#[test]
fn answers_to_post_operations() {
    assert_eq!(create_blog(Ok(post())), Ok((201, post())));
    assert_eq!(create_blog(Err(RepositoryError::NotFound(0))), Err(404));
    assert_eq!(create_blog(Err(unexpected())), Err(500));
    assert_eq!(find_blog(Ok(post())), Ok((200, post())));
    assert_eq!(find_blog(Err(RepositoryError::NotFound(1))), Err(404));
    assert_eq!(all_blog(Ok(vec![post()])), Ok((200, vec![post()])));
    assert_eq!(all_blog(Ok(vec![])), Ok((200, vec![])));
    assert_eq!(all_blog(Err(unexpected())), Err(500));
    assert_eq!(update_blog(Ok(post())), Ok((201, post())));
    assert_eq!(update_blog(Err(RepositoryError::NotFound(1))), Err(404));
    assert_eq!(delete_blog(Ok(())), 204);
    assert_eq!(delete_blog(Err(RepositoryError::NotFound(1))), 404);
    assert_eq!(delete_blog(Err(unexpected())), 500);
}

#[test]
fn answers_to_tag_operations() {
    let tag = Tag { id: 1, name: "a".to_string() };
    assert_eq!(create_tag(Ok(tag.clone())), Ok((201, tag.clone())));
    assert_eq!(create_tag(Err(RepositoryError::Duplicate(1))), Err(500));
    assert_eq!(all_tag(Ok(vec![tag.clone()])), Ok((200, vec![tag])));
    assert_eq!(all_tag(Err(unexpected())), Err(500));
    assert_eq!(delete_tag(Ok(())), 204);
    assert_eq!(delete_tag(Err(RepositoryError::NotFound(1))), 404);
    assert_eq!(delete_tag(Err(unexpected())), 500);
}

#[test]
fn answer_under_a_given_status() {
    assert_eq!(respond(Ok(7u8), 299), Ok((299, 7u8)));
    assert_eq!(respond::<u8>(Err(RepositoryError::NotFound(7)), 299), Err(404));
}

#[test]
fn lengths_of_titles_and_names() {
    assert_eq!(check_length(&"".to_string()), Err(ValidationError::Empty));
    assert_eq!(check_length(&"a".to_string()), Ok(()));
    assert_eq!(check_length(&"a".repeat(100)), Ok(()));
    assert_eq!(check_length(&"a".repeat(101)), Err(ValidationError::TooLong));
    assert_eq!(check_length(&"é".repeat(100)), Ok(()));
    assert_eq!(check_length(&"é".repeat(101)), Err(ValidationError::TooLong));
}

#[test]
fn payloads_are_validated_by_their_title_or_name() {
    let create = CreateBlog::new("".to_string(), "".to_string(), vec![]);
    assert_eq!(create.validate(), Err(ValidationError::Empty));
    let create = CreateBlog::new("title".to_string(), "".to_string(), vec![1]);
    assert_eq!(create.validate(), Ok(()));
    let update = UpdateBlog { title: None, body: None, tags: None };
    assert_eq!(update.validate(), Ok(()));
    let update = UpdateBlog { title: Some("a".repeat(101)), body: None, tags: None };
    assert_eq!(update.validate(), Err(ValidationError::TooLong));
    let update = UpdateBlog { title: Some("".to_string()), body: None, tags: None };
    assert_eq!(update.validate(), Err(ValidationError::Empty));
    assert_eq!(CreateTag { name: "".to_string() }.validate(), Err(ValidationError::Empty));
    assert_eq!(CreateTag { name: "tag".to_string() }.validate(), Ok(()));
    assert_eq!(CreateTag { name: "a".repeat(101) }.validate(), Err(ValidationError::TooLong));
}

#[test]
fn values_are_built_and_copied() {
    let tag = Tag::new(3, "three".to_string());
    assert_eq!(tag, Tag { id: 3, name: "three".to_string() });
    assert_eq!(tag.clone(), tag);
    let post = BlogEntity::new(1, "t".to_string(), "b".to_string(), vec![tag.clone()]);
    assert_eq!(
        post,
        BlogEntity { id: 1, title: "t".to_string(), body: "b".to_string(), tags: vec![tag] }
    );
    assert_eq!(post.clone(), post);
    let create = CreateBlog::new("t".to_string(), "b".to_string(), vec![1, 2]);
    assert_eq!(create.clone(), create);
    let update = UpdateBlog { title: Some("t".to_string()), body: None, tags: Some(vec![4]) };
    assert_eq!(update.clone(), update);
    let renamed = UpdateTag { id: 3, name: "drei".to_string() };
    assert_eq!(renamed.clone(), renamed);
}
