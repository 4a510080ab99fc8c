//! Laws of the cache, stated over its ghost model and proved once and for
//! all. Each law holds for every well-formed cache state, not just for the
//! states a particular test happens to build. The worker applies commands
//! one at a time in arrival order, so each law about "a following" call
//! speaks of the state the previous call left behind.

use vstd::prelude::*;

use crate::blog::{BlogPostModel, PostModel, PublishedModel, SummaryModel};
use crate::cache::{
    has_summary_for, inv, spec_create, spec_get, spec_publish, spec_update_draft,
    spec_update_published, summary_index, CacheModel,
};

verus! {

/// A get issued after a create observes that create's content: looking the
/// returned id up in the state the create produced yields the in-progress
/// post with exactly the created title and body.
pub proof fn law_create_then_get(m: CacheModel, id: u128, title: Seq<char>, body: Seq<char>)
    requires
        inv(m),
        !m.published.contains_key(id),
        !m.unpublished.contains_key(id),
    ensures
        spec_get(spec_create(m, id, title, body), id) == Some(
            BlogPostModel::InProgress(PostModel { id, title, body }),
        ),
{
}

/// A get issued after a successful publish observes the finished post:
/// the draft's id, title and body, stamped with the publish date.
pub proof fn law_publish_then_get(m: CacheModel, id: u128, date: i64)
    requires
        inv(m),
        m.unpublished.contains_key(id),
    ensures
        spec_get(spec_publish(m, id, date), id) == Some(
            BlogPostModel::Finished(
                PublishedModel {
                    id,
                    date,
                    title: m.unpublished[id].title,
                    body: m.unpublished[id].body,
                },
            ),
        ),
{
}

/// Publishing is one-shot: a successful publish removes the draft, so a
/// second publish of the same id finds no draft and reports failure.
pub proof fn law_publish_twice(m: CacheModel, id: u128, date: i64)
    requires
        inv(m),
        m.unpublished.contains_key(id),
    ensures
        !spec_publish(m, id, date).unpublished.contains_key(id),
{
}

/// Publishing appends exactly one summary — the new post's id, title and
/// date — so the post is visible to the pager at once, without waiting
/// for a restart.
pub proof fn law_publish_appends_summary(m: CacheModel, id: u128, date: i64)
    requires
        inv(m),
        m.unpublished.contains_key(id),
    ensures
        spec_publish(m, id, date).summaries.len() == m.summaries.len() + 1,
        spec_publish(m, id, date).summaries.last() == (SummaryModel {
            id,
            title: m.unpublished[id].title,
            date,
        }),
        forall|i: int|
            0 <= i < m.summaries.len() ==> spec_publish(m, id, date).summaries[i]
                == m.summaries[i],
{
}

/// Updating a published post refreshes its summary in place: the entry
/// for that id carries the new title and the unchanged date, so title
/// edits are visible to the pager at once.
pub proof fn law_update_refreshes_summary(
    m: CacheModel,
    id: u128,
    title: Seq<char>,
    body: Seq<char>,
)
    requires
        inv(m),
        m.published.contains_key(id),
    ensures
        spec_update_published(m, id, title, body).summaries.len() == m.summaries.len(),
        spec_update_published(m, id, title, body).summaries[summary_index(m.summaries, id)] == (
        SummaryModel { id, title, date: m.published[id].date }),
{
    assert(has_summary_for(m.summaries, id));
    let idx = summary_index(m.summaries, id);
    assert(0 <= idx < m.summaries.len() && m.summaries[idx].id == id);
}

/// Updating a draft preserves its id while replacing title and body.
pub proof fn law_update_draft_preserves_id(
    m: CacheModel,
    id: u128,
    title: Seq<char>,
    body: Seq<char>,
)
    requires
        inv(m),
        m.unpublished.contains_key(id),
    ensures
        spec_update_draft(m, id, title, body).unpublished.contains_key(id),
        spec_update_draft(m, id, title, body).unpublished[id] == (PostModel { id, title, body }),
        spec_update_draft(m, id, title, body).unpublished[id].id == m.unpublished[id].id,
{
}

/// Updating a published post preserves its id and publication date while
/// replacing title and body.
pub proof fn law_update_published_preserves_identity(
    m: CacheModel,
    id: u128,
    title: Seq<char>,
    body: Seq<char>,
)
    requires
        inv(m),
        m.published.contains_key(id),
    ensures
        spec_update_published(m, id, title, body).published.contains_key(id),
        spec_update_published(m, id, title, body).published[id] == (PublishedModel {
            id,
            date: m.published[id].date,
            title,
            body,
        }),
        spec_update_published(m, id, title, body).published[id].id == m.published[id].id,
        spec_update_published(m, id, title, body).published[id].date == m.published[id].date,
{
}

} // verus!
