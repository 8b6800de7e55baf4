use backend::repositories::blog::fold_entities;
use backend::repositories::blog::BlogEntity;
use backend::repositories::blog::BlogWithTagFromRow;
use backend::repositories::tag::Tag;

fn row(id: i32, text: &str, tag: Option<(i32, &str)>) -> BlogWithTagFromRow {
    BlogWithTagFromRow {
        id,
        title: text.to_string(),
        body: text.to_string(),
        label_id: tag.map(|(id, _)| id),
        tag_name: tag.map(|(_, name)| name.to_string()),
    }
}

fn post(id: i32, text: &str, tags: Vec<Tag>) -> BlogEntity {
    BlogEntity { id, title: text.to_string(), body: text.to_string(), tags }
}

fn tag(id: i32, name: &str) -> Tag {
    Tag { id, name: name.to_string() }
}

#[test]
fn fold_entities_test() {
    let tag_1 = Tag {
        id: 1,
        name: String::from("tag 1"),
    };
    let tag_2 = Tag {
        id: 2,
        name: String::from("tag 2"),
    };
    let rows = vec![
        BlogWithTagFromRow {
            id: 1,
            title: String::from("Blog 1"),
            body: String::from("Blog 1"),
            label_id: Some(tag_1.id),
            tag_name: Some(tag_1.name.clone()),
        },
        BlogWithTagFromRow {
            id: 1,
            title: String::from("Blog 1"),
            body: String::from("Blog 1"),
            label_id: Some(tag_2.id),
            tag_name: Some(tag_2.name.clone()),
        },
        BlogWithTagFromRow {
            id: 2,
            title: String::from("Blog 2"),
            body: String::from("Blog 2"),
            label_id: Some(tag_1.id),
            tag_name: Some(tag_1.name.clone()),
        },
    ];

    let res = fold_entities(rows);
    assert_eq!(
        res,
        vec![
            BlogEntity {
                id: 1,
                title: String::from("Blog 1"),
                body: String::from("Blog 1"),
                tags: vec![tag_1.clone(), tag_2.clone()],
            },
            BlogEntity {
                id: 2,
                title: String::from("Blog 2"),
                body: String::from("Blog 2"),
                tags: vec![tag_1.clone()],
            },
        ]
    )
}

#[test]
fn fold_of_the_documented_rows() {
    let rows = vec![
        BlogWithTagFromRow {
            id: 1,
            title: "T".to_string(),
            body: "T".to_string(),
            label_id: Some(1),
            tag_name: Some("tag1".to_string()),
        },
        BlogWithTagFromRow {
            id: 1,
            title: "T".to_string(),
            body: "T".to_string(),
            label_id: Some(2),
            tag_name: Some("tag2".to_string()),
        },
        BlogWithTagFromRow {
            id: 2,
            title: "U".to_string(),
            body: "U".to_string(),
            label_id: Some(1),
            tag_name: Some("tag1".to_string()),
        },
    ];
    assert_eq!(
        fold_entities(rows),
        vec![
            post(1, "T", vec![tag(1, "tag1"), tag(2, "tag2")]),
            post(2, "U", vec![tag(1, "tag1")]),
        ]
    );
}

#[test]
fn fold_of_no_rows_is_empty() {
    assert_eq!(fold_entities(vec![]), Vec::<BlogEntity>::new());
}

#[test]
fn fold_of_a_post_without_tags() {
    let rows = vec![row(7, "alone", None)];
    assert_eq!(fold_entities(rows), vec![post(7, "alone", vec![])]);
}

#[test]
fn fold_keeps_the_order_of_first_appearance() {
    let rows = vec![
        row(3, "c", Some((1, "x"))),
        row(1, "a", Some((2, "y"))),
        row(3, "c", Some((2, "y"))),
        row(2, "b", None),
        row(1, "a", Some((1, "x"))),
    ];
    assert_eq!(
        fold_entities(rows),
        vec![
            post(3, "c", vec![tag(1, "x"), tag(2, "y")]),
            post(1, "a", vec![tag(2, "y"), tag(1, "x")]),
            post(2, "b", vec![]),
        ]
    );
}

#[test]
fn fold_keeps_a_descending_order() {
    let rows = vec![
        row(9, "nine", Some((1, "x"))),
        row(9, "nine", Some((2, "y"))),
        row(5, "five", None),
        row(2, "two", Some((1, "x"))),
    ];
    let ids: Vec<i32> = fold_entities(rows).iter().map(|post| post.id).collect();
    assert_eq!(ids, vec![9, 5, 2]);
}

#[test]
fn fold_takes_title_and_body_from_the_first_row() {
    let rows = vec![
        BlogWithTagFromRow {
            id: 1,
            title: "first title".to_string(),
            body: "first body".to_string(),
            label_id: Some(1),
            tag_name: Some("x".to_string()),
        },
        BlogWithTagFromRow {
            id: 1,
            title: "second title".to_string(),
            body: "second body".to_string(),
            label_id: Some(2),
            tag_name: Some("y".to_string()),
        },
    ];
    assert_eq!(
        fold_entities(rows),
        vec![BlogEntity {
            id: 1,
            title: "first title".to_string(),
            body: "first body".to_string(),
            tags: vec![tag(1, "x"), tag(2, "y")],
        }]
    );
}

#[test]
fn fold_does_not_merge_repeated_tags() {
    let rows = vec![row(1, "a", Some((4, "x"))), row(1, "a", Some((4, "x")))];
    assert_eq!(fold_entities(rows), vec![post(1, "a", vec![tag(4, "x"), tag(4, "x")])]);
}

#[test]
fn fold_skips_absent_tag_columns_on_a_later_row() {
    let rows = vec![row(1, "a", Some((4, "x"))), row(1, "a", None), row(1, "a", Some((5, "y")))];
    assert_eq!(fold_entities(rows), vec![post(1, "a", vec![tag(4, "x"), tag(5, "y")])]);
}

#[test]
fn fold_attaches_no_tag_where_one_tag_column_is_absent() {
    let rows = vec![
        BlogWithTagFromRow {
            id: 1,
            title: "a".to_string(),
            body: "a".to_string(),
            label_id: Some(4),
            tag_name: None,
        },
        BlogWithTagFromRow {
            id: 1,
            title: "a".to_string(),
            body: "a".to_string(),
            label_id: None,
            tag_name: Some("x".to_string()),
        },
    ];
    assert_eq!(fold_entities(rows), vec![post(1, "a", vec![])]);
}

#[test]
fn row_tag_needs_both_columns() {
    assert_eq!(row(1, "a", Some((4, "x"))).tag(), Some(tag(4, "x")));
    assert_eq!(row(1, "a", None).tag(), None);
}
