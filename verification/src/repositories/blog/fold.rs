//! The fold that turns the flat rows of a join back into posts.
//!
//! The rows are taken in their order. The posts come out in the order in
//! which the rows first name them; a row of a post that was named before adds
//! its tag to that post.

use vstd::prelude::*;

use super::super::tag::tag_views;
use super::super::tag::TagView;
use super::blog_views;
use super::BlogEntity;
use super::BlogView;
use super::BlogWithTagFromRow;
use super::row_views;
use super::RowView;

verus! {

/// Whether a row belongs to the post `id`.
pub open spec fn of_post(id: int) -> spec_fn(RowView) -> bool {
    |row: RowView| row.id == id
}

/// The tag that a row attaches to the post `id`: none where the row belongs to
/// another post.
pub open spec fn tag_for(id: int) -> spec_fn(RowView) -> Option<TagView> {
    |row: RowView|
        if row.id == id {
            row.tag()
        } else {
            None
        }
}

/// The identifiers of the posts that `rows` speak of, each once, in the order
/// in which the rows first name them.
pub open spec fn post_ids(rows: Seq<RowView>) -> Seq<int>
    decreases rows.len(),
{
    if rows.len() == 0 {
        Seq::empty()
    } else {
        let before = post_ids(rows.drop_last());
        if before.contains(rows.last().id) {
            before
        } else {
            before.push(rows.last().id)
        }
    }
}

/// The post `id` as `rows` describe it: title and body from its first row, and
/// the tags that its rows attach, in the order of the rows.
pub open spec fn hydrated(rows: Seq<RowView>, id: int) -> BlogView {
    let first = rows.filter(of_post(id)).first();
    BlogView { id, title: first.title, body: first.body, tags: rows.filter_map(tag_for(id)) }
}

/// The posts that `rows` describe: one for each distinct post identifier, in
/// the order in which the rows first name them.
pub open spec fn folded(rows: Seq<RowView>) -> Seq<BlogView> {
    post_ids(rows).map_values(|id: int| hydrated(rows, id))
}

proof fn lemma_post_ids_push(rows: Seq<RowView>, row: RowView)
    ensures
        post_ids(rows.push(row)) == if post_ids(rows).contains(row.id) {
            post_ids(rows)
        } else {
            post_ids(rows).push(row.id)
        },
{
    assert(rows.push(row).drop_last() =~= rows);
}

/// `post_ids` names every post of the rows, and none twice.
pub proof fn lemma_post_ids_distinct(rows: Seq<RowView>)
    ensures
        post_ids(rows).no_duplicates(),
        forall|id: int|
            post_ids(rows).contains(id) <==> exists|i: int|
                0 <= i < rows.len() && (#[trigger] rows[i]).id == id,
    decreases rows.len(),
{
    if rows.len() > 0 {
        let before = rows.drop_last();
        lemma_post_ids_distinct(before);
        assert forall|id: int| post_ids(rows).contains(id) implies exists|i: int|
            0 <= i < rows.len() && (#[trigger] rows[i]).id == id by {
            if post_ids(before).contains(id) {
                let i = choose|i: int| 0 <= i < before.len() && (#[trigger] before[i]).id == id;
                assert(rows[i].id == id);
            } else {
                assert(rows[rows.len() - 1].id == id);
            }
        }
        assert forall|id: int|
            (exists|i: int|
                0 <= i < rows.len() && (#[trigger] rows[i]).id == id) implies post_ids(
            rows,
        ).contains(id) by {
            let i = choose|i: int| 0 <= i < rows.len() && (#[trigger] rows[i]).id == id;
            if i < before.len() {
                assert(before[i].id == id);
                assert(post_ids(before).contains(id));
                let j = choose|j: int|
                    0 <= j < post_ids(before).len() && post_ids(before)[j] == id;
                assert(post_ids(rows)[j] == id);
            } else if !post_ids(before).contains(id) {
                assert(post_ids(rows)[post_ids(rows).len() - 1] == id);
            }
        }
    }
}

proof fn lemma_hydrated_push(rows: Seq<RowView>, row: RowView, id: int)
    ensures
        hydrated(rows.push(row), id) == if row.id != id {
            hydrated(rows, id)
        } else if post_ids(rows).contains(id) {
            BlogView { tags: hydrated(rows, id).tags + row.tags(), ..hydrated(rows, id) }
        } else {
            BlogView { id, title: row.title, body: row.body, tags: row.tags() }
        },
{
    let more = rows.push(row);
    assert(more.drop_last() =~= rows);
    rows.lemma_filter_push(row, of_post(id));
    lemma_post_ids_distinct(rows);
    if row.id == id {
        if post_ids(rows).contains(id) {
            let i = choose|i: int| 0 <= i < rows.len() && (#[trigger] rows[i]).id == id;
            rows.lemma_filter_contains(of_post(id), i);
        } else {
            lemma_absent_post(rows, id);
            assert(more.filter_map(tag_for(id)) =~= row.tags());
        }
    }
}

proof fn lemma_absent_post(rows: Seq<RowView>, id: int)
    requires
        forall|i: int| 0 <= i < rows.len() ==> (#[trigger] rows[i]).id != id,
    ensures
        rows.filter(of_post(id)).len() == 0,
        rows.filter_map(tag_for(id)).len() == 0,
    decreases rows.len(),
{
    reveal(Seq::filter);
    if rows.len() > 0 {
        lemma_absent_post(rows.drop_last(), id);
    }
}

proof fn lemma_fold_known_post(rows: Seq<RowView>, row: RowView, j: int)
    requires
        0 <= j < post_ids(rows).len(),
        post_ids(rows)[j] == row.id,
    ensures
        folded(rows.push(row)) == folded(rows).update(
            j,
            BlogView { tags: folded(rows)[j].tags + row.tags(), ..folded(rows)[j] },
        ),
{
    lemma_post_ids_push(rows, row);
    lemma_post_ids_distinct(rows);
    let ids = post_ids(rows);
    let next = folded(rows).update(
        j,
        BlogView { tags: folded(rows)[j].tags + row.tags(), ..folded(rows)[j] },
    );
    assert forall|i: int| 0 <= i < ids.len() implies folded(rows.push(row))[i] == next[i] by {
        lemma_hydrated_push(rows, row, ids[i]);
    }
}

proof fn lemma_fold_new_post(rows: Seq<RowView>, row: RowView)
    requires
        !post_ids(rows).contains(row.id),
    ensures
        folded(rows.push(row)) == folded(rows).push(
            BlogView { id: row.id, title: row.title, body: row.body, tags: row.tags() },
        ),
{
    lemma_post_ids_push(rows, row);
    let ids = post_ids(rows);
    let next = folded(rows).push(
        BlogView { id: row.id, title: row.title, body: row.body, tags: row.tags() },
    );
    assert forall|i: int| 0 <= i < ids.len() + 1 implies folded(rows.push(row))[i] == next[i] by {
        if i < ids.len() {
            lemma_hydrated_push(rows, row, ids[i]);
        } else {
            lemma_hydrated_push(rows, row, row.id);
        }
    }
}

/// Whether `rows[i]` is the first row that belongs to the post `id`.
pub open spec fn is_first_row(rows: Seq<RowView>, i: int, id: int) -> bool {
    &&& 0 <= i < rows.len()
    &&& rows[i].id == id
    &&& forall|j: int| 0 <= j < i ==> (#[trigger] rows[j]).id != id
}

/// Where the first row of the post `id` stands among `rows`.
pub open spec fn first_row(rows: Seq<RowView>, id: int) -> int {
    choose|i: int| is_first_row(rows, i, id)
}

/// Whether `post` is what `rows` say of the post with its identifier: the title
/// and the body of that post's first row, and the tags that its rows attach, in
/// the order of the rows.
pub open spec fn describes(rows: Seq<RowView>, post: BlogView) -> bool {
    let first = first_row(rows, post.id);
    &&& is_first_row(rows, first, post.id)
    &&& post.title == rows[first].title
    &&& post.body == rows[first].body
    &&& post.tags == rows.filter_map(tag_for(post.id))
}

/// Whether one of `posts` has the identifier `id`.
pub open spec fn has_post(posts: Seq<BlogView>, id: int) -> bool {
    exists|p: int| 0 <= p < posts.len() && (#[trigger] posts[p]).id == id
}

proof fn lemma_first_row_push(rows: Seq<RowView>, row: RowView, i: int, id: int)
    ensures
        is_first_row(rows, i, id) ==> is_first_row(rows.push(row), i, id),
        is_first_row(rows.push(row), i, id) && i < rows.len() ==> is_first_row(rows, i, id),
        is_first_row(rows.push(row), i, id) && i >= rows.len() ==> {
            &&& i == rows.len()
            &&& row.id == id
            &&& forall|j: int| 0 <= j < rows.len() ==> (#[trigger] rows[j]).id != id
        },
{
    let more = rows.push(row);
    if is_first_row(more, i, id) {
        if i < rows.len() {
            assert forall|j: int| 0 <= j < i implies (#[trigger] rows[j]).id != id by {
                assert(more[j].id != id);
            }
        } else {
            assert forall|j: int| 0 <= j < rows.len() implies (#[trigger] rows[j]).id != id by {
                assert(more[j].id != id);
            }
        }
    }
}

proof fn lemma_first_row_unique(rows: Seq<RowView>, i: int, j: int, id: int)
    requires
        is_first_row(rows, i, id),
        is_first_row(rows, j, id),
    ensures
        i == j,
{
}

proof fn lemma_first_row_exists(rows: Seq<RowView>, k: int)
    requires
        0 <= k < rows.len(),
    ensures
        is_first_row(rows, first_row(rows, rows[k].id), rows[k].id),
        first_row(rows, rows[k].id) <= k,
    decreases k,
{
    let id = rows[k].id;
    if exists|j: int| 0 <= j < k && (#[trigger] rows[j]).id == id {
        let j = choose|j: int| 0 <= j < k && (#[trigger] rows[j]).id == id;
        lemma_first_row_exists(rows, j);
    } else {
        lemma_first_row_unique(rows, k, first_row(rows, id), id);
    }
}

proof fn lemma_first_row_kept(rows: Seq<RowView>, row: RowView, id: int)
    requires
        post_ids(rows).contains(id),
    ensures
        is_first_row(rows, first_row(rows, id), id),
        first_row(rows.push(row), id) == first_row(rows, id),
{
    lemma_post_ids_distinct(rows);
    let k = choose|k: int| 0 <= k < rows.len() && (#[trigger] rows[k]).id == id;
    lemma_first_row_exists(rows, k);
    let i = first_row(rows, id);
    lemma_first_row_push(rows, row, i, id);
    lemma_first_row_unique(rows.push(row), i, first_row(rows.push(row), id), id);
}

proof fn lemma_first_row_new(rows: Seq<RowView>, row: RowView)
    requires
        !post_ids(rows).contains(row.id),
    ensures
        is_first_row(rows.push(row), rows.len() as int, row.id),
        first_row(rows.push(row), row.id) == rows.len(),
{
    lemma_post_ids_distinct(rows);
    let more = rows.push(row);
    lemma_first_row_unique(more, rows.len() as int, first_row(more, row.id), row.id);
}

/// `post_ids` keeps the order in which the rows first name their posts: each of
/// its identifiers has a first row, and those first rows stand in the order of
/// the identifiers.
pub proof fn lemma_post_ids_first_seen(rows: Seq<RowView>)
    ensures
        forall|p: int|
            0 <= p < post_ids(rows).len() ==> is_first_row(
                rows,
                first_row(rows, #[trigger] post_ids(rows)[p]),
                post_ids(rows)[p],
            ),
        forall|p: int, q: int|
            0 <= p < q < post_ids(rows).len() ==> first_row(rows, #[trigger] post_ids(rows)[p])
                < first_row(rows, #[trigger] post_ids(rows)[q]),
    decreases rows.len(),
{
    if rows.len() > 0 {
        let before = rows.drop_last();
        let last = rows.last();
        let old_ids = post_ids(before);
        let ids = post_ids(rows);
        assert(before.push(last) =~= rows);
        lemma_post_ids_first_seen(before);
        assert forall|p: int| 0 <= p < ids.len() implies is_first_row(
            rows,
            first_row(rows, #[trigger] ids[p]),
            ids[p],
        ) && (p < old_ids.len() ==> first_row(rows, ids[p]) == first_row(before, old_ids[p])
            && first_row(rows, ids[p]) < before.len()) && (p >= old_ids.len() ==> first_row(
            rows,
            ids[p],
        ) == before.len()) by {
            if p < old_ids.len() {
                lemma_first_row_kept(before, last, old_ids[p]);
            } else {
                lemma_first_row_new(before, last);
            }
        }
    }
}

proof fn lemma_first_row_leads(rows: Seq<RowView>, i: int, id: int)
    requires
        is_first_row(rows, i, id),
    ensures
        rows.filter(of_post(id)).len() > 0,
        rows.filter(of_post(id)).first() == rows[i],
    decreases rows.len(),
{
    let before = rows.drop_last();
    let last = rows.last();
    assert(before.push(last) =~= rows);
    before.lemma_filter_push(last, of_post(id));
    lemma_first_row_push(before, last, i, id);
    if i < before.len() {
        lemma_first_row_leads(before, i, id);
    } else {
        lemma_absent_post(before, id);
    }
}

/// What the fold yields. Each of its posts is what the rows say of that post;
/// the posts stand in the order in which the rows first name them, so no two
/// have the same identifier; and every row's post is among them.
pub proof fn lemma_fold_correct(rows: Seq<RowView>)
    ensures
        forall|p: int| 0 <= p < folded(rows).len() ==> describes(rows, #[trigger] folded(rows)[p]),
        forall|p: int, q: int|
            0 <= p < q < folded(rows).len() ==> first_row(rows, (#[trigger] folded(rows)[p]).id)
                < first_row(rows, (#[trigger] folded(rows)[q]).id),
        forall|i: int| 0 <= i < rows.len() ==> has_post(folded(rows), (#[trigger] rows[i]).id),
{
    let ids = post_ids(rows);
    lemma_post_ids_first_seen(rows);
    assert forall|p: int| 0 <= p < folded(rows).len() implies describes(
        rows,
        #[trigger] folded(rows)[p],
    ) by {
        lemma_first_row_leads(rows, first_row(rows, ids[p]), ids[p]);
    }
    assert forall|i: int| 0 <= i < rows.len() implies has_post(
        folded(rows),
        (#[trigger] rows[i]).id,
    ) by {
        lemma_post_ids_distinct(rows);
        assert(ids.contains(rows[i].id));
        let p = choose|p: int| 0 <= p < ids.len() && ids[p] == rows[i].id;
        assert(folded(rows)[p].id == rows[i].id);
    }
}

/// The fold keeps a descending order: rows that come with the greatest post
/// identifier first fold into posts with the greatest identifier first.
pub proof fn lemma_fold_keeps_descending(rows: Seq<RowView>)
    requires
        forall|i: int, j: int|
            0 <= i < j < rows.len() ==> (#[trigger] rows[i]).id >= (#[trigger] rows[j]).id,
    ensures
        forall|p: int, q: int|
            0 <= p < q < folded(rows).len() ==> (#[trigger] folded(rows)[p]).id > (
            #[trigger] folded(rows)[q]).id,
{
    lemma_fold_correct(rows);
    assert forall|p: int, q: int| 0 <= p < q < folded(rows).len() implies (
    #[trigger] folded(rows)[p]).id > (#[trigger] folded(rows)[q]).id by {
        let i = first_row(rows, folded(rows)[p].id);
        let j = first_row(rows, folded(rows)[q].id);
        assert(i < j);
        assert(rows[i].id >= rows[j].id);
    }
}

/// Where the post `id` stands among `posts`.
fn position(posts: &Vec<BlogEntity>, id: i32) -> (found: Option<usize>)
    ensures
        match found {
            Some(j) => j < posts.len() && posts[j as int].id == id,
            None => forall|i: int| 0 <= i < posts.len() ==> (#[trigger] posts[i]).id != id,
        },
{
    let mut j: usize = 0;
    while j < posts.len()
        invariant
            j <= posts.len(),
            forall|i: int| 0 <= i < j ==> (#[trigger] posts[i]).id != id,
        decreases posts.len() - j,
    {
        if posts[j].id == id {
            return Some(j);
        }
        j += 1;
    }
    None
}

/// Folds the flat rows of a join into posts: one post for each distinct post
/// identifier, in the order in which the rows first name them, each with the
/// title and body of its first row and with the tags that its rows attach, in
/// the order of the rows. A row attaches a tag where its two tag columns are
/// both present.
pub fn fold_entities(rows: Vec<BlogWithTagFromRow>) -> (posts: Vec<BlogEntity>)
    ensures
        blog_views(posts@) == folded(row_views(rows@)),
{
    let mut accum: Vec<BlogEntity> = Vec::new();
    let mut k: usize = 0;
    while k < rows.len()
        invariant
            k <= rows.len(),
            blog_views(accum@) == folded(row_views(rows@).take(k as int)),
        decreases rows.len() - k,
    {
        let row = &rows[k];
        let ghost seen = row_views(rows@).take(k as int);
        let ghost before = accum@;
        proof {
            assert(row_views(rows@).take(k + 1) =~= seen.push(row@));
            assert(blog_views(before).len() == post_ids(seen).len());
            assert forall|i: int| 0 <= i < before.len() implies (#[trigger] before[i]).id
                == post_ids(seen)[i] by {
                assert(blog_views(before)[i].id == folded(seen)[i].id);
            }
        }
        match position(&accum, row.id) {
            Some(j) => {
                if let Some(tag) = row.tag() {
                    accum[j].tags.push(tag);
                }
                proof {
                    lemma_fold_known_post(seen, row@, j as int);
                    assert(tag_views(accum@[j as int].tags@) =~= tag_views(before[j as int].tags@)
                        + row@.tags());
                }
            },
            None => {
                let tags = match row.tag() {
                    Some(tag) => vec![tag],
                    None => Vec::new(),
                };
                accum.push(
                    BlogEntity {
                        id: row.id,
                        title: row.title.clone(),
                        body: row.body.clone(),
                        tags,
                    },
                );
                proof {
                    assert(!post_ids(seen).contains(row@.id)) by {
                        if post_ids(seen).contains(row@.id) {
                            let i = choose|i: int|
                                0 <= i < post_ids(seen).len() && post_ids(seen)[i] == row@.id;
                            assert(before[i].id == row.id);
                        }
                    }
                    lemma_fold_new_post(seen, row@);
                    assert(tag_views(tags@) =~= row@.tags());
                }
            },
        }
        k += 1;
    }
    proof {
        assert(row_views(rows@).take(rows.len() as int) =~= row_views(rows@));
    }
    accum
}

} // verus!
