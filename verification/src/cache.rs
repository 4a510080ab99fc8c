//! The in-memory content cache.
//!
//! The cache holds every post of the blog — published and draft — together
//! with a derived, ordered list of summaries of the published posts. It is
//! pure and synchronous: every operation completes without suspension, and
//! no operation performs I/O. A single worker owns the cache exclusively;
//! everyone else reads it through message round trips.
//!
//! Class invariant ([`inv`]): an id belongs to at most one of the two maps,
//! each map entry carries its own key, and `summaries` holds exactly one
//! entry per published post — same id, same title, same date — in publish
//! order. Both `publish` and `update` maintain the summary list, so newly
//! published posts and title edits are visible to the pager at once.

use std::collections::HashMap;

use vstd::prelude::*;

use crate::blog::{
    BlogPost, BlogPostModel, PagerQuery, PostModel, PostSummary, PublishedModel, PublishedPost,
    SummaryModel, SummaryPager, UnpublishedPost,
};

verus! {

broadcast use vstd::std_specs::hash::group_hash_axioms;

/// Ghost model of the cache: the summary list and the two post maps.
#[verifier::ext_equal]
pub ghost struct CacheModel {
    pub summaries: Seq<SummaryModel>,
    pub published: Map<u128, PublishedModel>,
    pub unpublished: Map<u128, PostModel>,
}

/// The models of a list of summaries.
pub open spec fn summaries_model(v: Seq<PostSummary>) -> Seq<SummaryModel> {
    v.map_values(|s: PostSummary| s@)
}

/// The models of a map of published posts.
pub open spec fn published_model(m: Map<u128, PublishedPost>) -> Map<u128, PublishedModel> {
    m.map_values(|p: PublishedPost| p@)
}

/// The models of a map of draft posts.
pub open spec fn unpublished_model(m: Map<u128, UnpublishedPost>) -> Map<u128, PostModel> {
    m.map_values(|p: UnpublishedPost| p@)
}

/// Whether the summary at index `i` mirrors its published post.
pub open spec fn summary_matches(m: CacheModel, s: SummaryModel) -> bool {
    &&& m.published.contains_key(s.id)
    &&& s.title == m.published[s.id].title
    &&& s.date == m.published[s.id].date
}

/// Whether some summary in `s` is for the post with the given id.
pub open spec fn has_summary_for(s: Seq<SummaryModel>, id: u128) -> bool {
    exists|i: int| 0 <= i < s.len() && #[trigger] s[i].id == id
}

/// The index of the summary for the given id (meaningful only when one
/// exists; it is unique under [`inv`]).
pub open spec fn summary_index(s: Seq<SummaryModel>, id: u128) -> int {
    choose|i: int| 0 <= i < s.len() && #[trigger] s[i].id == id
}

/// What a lookup of `id` observes: published entries take precedence over
/// drafts, and an id known to neither map yields nothing.
pub open spec fn spec_get(m: CacheModel, id: u128) -> Option<BlogPostModel> {
    if m.published.contains_key(id) {
        Some(BlogPostModel::Finished(m.published[id]))
    } else if m.unpublished.contains_key(id) {
        Some(BlogPostModel::InProgress(m.unpublished[id]))
    } else {
        None
    }
}

/// The model change of creating a draft `id`: the draft enters
/// `unpublished`, everything else untouched.
pub open spec fn spec_create(m: CacheModel, id: u128, title: Seq<char>, body: Seq<char>) -> CacheModel {
    CacheModel {
        summaries: m.summaries,
        published: m.published,
        unpublished: m.unpublished.insert(id, PostModel { id, title, body }),
    }
}

/// The model change of publishing the draft `id` at time `date`: the draft
/// leaves `unpublished`, a finished post stamped `date` enters `published`,
/// and a matching summary is appended.
pub open spec fn spec_publish(m: CacheModel, id: u128, date: i64) -> CacheModel {
    let p = m.unpublished[id];
    CacheModel {
        summaries: m.summaries.push(SummaryModel { id, title: p.title, date }),
        published: m.published.insert(
            id,
            PublishedModel { id, date, title: p.title, body: p.body },
        ),
        unpublished: m.unpublished.remove(id),
    }
}

/// The model change of editing the draft `id`: title and body replaced in
/// place, everything else untouched.
pub open spec fn spec_update_draft(
    m: CacheModel,
    id: u128,
    title: Seq<char>,
    body: Seq<char>,
) -> CacheModel {
    CacheModel {
        summaries: m.summaries,
        published: m.published,
        unpublished: m.unpublished.insert(id, PostModel { id, title, body }),
    }
}

/// The model change of editing the published post `id`: title and body
/// replaced, the date kept, and the post's summary refreshed in place.
pub open spec fn spec_update_published(
    m: CacheModel,
    id: u128,
    title: Seq<char>,
    body: Seq<char>,
) -> CacheModel {
    let p = m.published[id];
    CacheModel {
        summaries: m.summaries.update(
            summary_index(m.summaries, id),
            SummaryModel { id, title, date: p.date },
        ),
        published: m.published.insert(id, PublishedModel { id, date: p.date, title, body }),
        unpublished: m.unpublished,
    }
}

/// One page of summaries: `s` read newest-first, with `page * size`
/// entries skipped and at most `size` taken. Out-of-range pages are empty.
pub open spec fn spec_page(s: Seq<SummaryModel>, size: nat, page: nat) -> Seq<SummaryModel> {
    let skip = page * size;
    if skip >= s.len() {
        Seq::<SummaryModel>::empty()
    } else {
        let count = if size <= s.len() - skip {
            size as int
        } else {
            s.len() - skip
        };
        Seq::new(count as nat, |k: int| s[s.len() - 1 - skip - k])
    }
}

/// Whether a summary list is ordered oldest-first by publication date.
pub open spec fn sorted_by_date(s: Seq<SummaryModel>) -> bool {
    forall|i: int, j: int|
        #![trigger s[i].date, s[j].date]
        0 <= i <= j < s.len() ==> s[i].date <= s[j].date
}

/// The published map reconstructed from a sequence of store records: one
/// entry per id, the first record with an id winning.
pub open spec fn published_map_of(s: Seq<PublishedModel>) -> Map<u128, PublishedModel>
    decreases s.len(),
{
    if s.len() == 0 {
        Map::<u128, PublishedModel>::empty()
    } else {
        let m = published_map_of(s.drop_last());
        if m.contains_key(s.last().id) {
            m
        } else {
            m.insert(s.last().id, s.last())
        }
    }
}

/// The draft map reconstructed from a sequence of store records: one entry
/// per id, the first record winning, and ids that are already published
/// left out so that the exclusivity invariant holds.
pub open spec fn draft_map_of(s: Seq<PostModel>, published: Map<u128, PublishedModel>) -> Map<
    u128,
    PostModel,
>
    decreases s.len(),
{
    if s.len() == 0 {
        Map::<u128, PostModel>::empty()
    } else {
        let m = draft_map_of(s.drop_last(), published);
        if m.contains_key(s.last().id) || published.contains_key(s.last().id) {
            m
        } else {
            m.insert(s.last().id, s.last())
        }
    }
}

/// The cache's class invariant.
pub open spec fn inv(m: CacheModel) -> bool {
    &&& forall|id: u128| #[trigger]
        m.published.contains_key(id) ==> !m.unpublished.contains_key(id)
    &&& forall|id: u128| #[trigger] m.published.contains_key(id) ==> m.published[id].id == id
    &&& forall|id: u128| #[trigger] m.unpublished.contains_key(id) ==> m.unpublished[id].id == id
    &&& forall|i: int|
        0 <= i < m.summaries.len() ==> summary_matches(m, #[trigger] m.summaries[i])
    &&& forall|i: int, j: int|
        #![trigger m.summaries[i].id, m.summaries[j].id]
        0 <= i < m.summaries.len() && 0 <= j < m.summaries.len() && i != j
            ==> m.summaries[i].id != m.summaries[j].id
    &&& forall|id: u128| #[trigger]
        m.published.contains_key(id) ==> has_summary_for(m.summaries, id)
}

/// The in-memory cache of all blog-post content.
pub struct Cache {
    summaries: Vec<PostSummary>,
    published: HashMap<u128, PublishedPost>,
    unpublished: HashMap<u128, UnpublishedPost>,
}

impl View for Cache {
    type V = CacheModel;

    closed spec fn view(&self) -> CacheModel {
        CacheModel {
            summaries: summaries_model(self.summaries@),
            published: published_model(self.published@),
            unpublished: unpublished_model(self.unpublished@),
        }
    }
}

impl Cache {
    /// The class invariant, as a predicate on the cache itself.
    pub open spec fn wf(&self) -> bool {
        inv(self@)
    }

    /// An empty cache.
    pub fn new() -> (r: Self)
        ensures
            r.wf(),
            r@ == (CacheModel {
                summaries: Seq::<SummaryModel>::empty(),
                published: Map::<u128, PublishedModel>::empty(),
                unpublished: Map::<u128, PostModel>::empty(),
            }),
    {
        let r = Cache {
            summaries: Vec::new(),
            published: HashMap::new(),
            unpublished: HashMap::new(),
        };
        proof {
            assert(r@.summaries =~= Seq::<SummaryModel>::empty());
            assert(r@.published =~= Map::<u128, PublishedModel>::empty());
            assert(r@.unpublished =~= Map::<u128, PostModel>::empty());
        }
        r
    }

    /// Looks a post up by id and returns a deep copy, never a live
    /// reference. Published entries take precedence over drafts.
    pub fn get(&self, id: u128) -> (r: Option<BlogPost>)
        requires
            self.wf(),
        ensures
            match r {
                Some(bp) => spec_get(self@, id) == Some(bp@),
                None => spec_get(self@, id) is None,
            },
    {
        match self.published.get(&id) {
            Some(post) => Some(BlogPost::Finished(post.clone())),
            None => match self.unpublished.get(&id) {
                Some(post) => Some(BlogPost::InProgress(post.clone())),
                None => None,
            },
        }
    }

    /// Inserts a new draft post under a caller-supplied fresh id and
    /// returns a copy of it.
    pub fn create_with_id(&mut self, id: u128, title: String, body: String) -> (r:
        UnpublishedPost)
        requires
            old(self).wf(),
            !old(self)@.published.contains_key(id),
            !old(self)@.unpublished.contains_key(id),
        ensures
            final(self).wf(),
            r@ == (PostModel { id, title: title@, body: body@ }),
            final(self)@ == spec_create(old(self)@, id, title@, body@),
    {
        let post = UnpublishedPost::new(id, title, body);
        let copy = post.clone();
        self.unpublished.insert(id, post);
        proof {
            assert(self@.unpublished =~= old(self)@.unpublished.insert(id, copy@));
            assert(self@ =~= (CacheModel {
                summaries: old(self)@.summaries,
                published: old(self)@.published,
                unpublished: old(self)@.unpublished.insert(id, copy@),
            }));
        }
        copy
    }

    /// Creates a post under a freshly drawn random id. Returns `None` only
    /// when the drawn id collides with a post that already exists; the
    /// cache is then left unchanged.
    pub fn create(&mut self, title: String, body: String) -> (r: Option<UnpublishedPost>)
        requires
            old(self).wf(),
        ensures
            final(self).wf(),
            match r {
                Some(post) => {
                    &&& post@.title == title@
                    &&& post@.body == body@
                    &&& !old(self)@.published.contains_key(post@.id)
                    &&& !old(self)@.unpublished.contains_key(post@.id)
                    &&& final(self)@ == spec_create(old(self)@, post@.id, title@, body@)
                },
                None => final(self)@ == old(self)@,
            },
    {
        let id = crate::ident::fresh_post_id();
        if self.published.contains_key(&id) || self.unpublished.contains_key(&id) {
            None
        } else {
            Some(self.create_with_id(id, title, body))
        }
    }

    /// Publishes the draft with the given id, stamping it with `date`.
    /// Returns `false` — and changes nothing — when no draft has that id,
    /// which covers both unknown ids and already-published posts.
    pub fn publish_at(&mut self, id: u128, date: i64) -> (r: bool)
        requires
            old(self).wf(),
        ensures
            final(self).wf(),
            r == old(self)@.unpublished.contains_key(id),
            r ==> final(self)@ == spec_publish(old(self)@, id, date),
            !r ==> final(self)@ == old(self)@,
    {
        match self.unpublished.remove(&id) {
            None => {
                proof {
                    assert(self@.unpublished =~= old(self)@.unpublished);
                    assert(self@ =~= old(self)@);
                }
                false
            },
            Some(post) => {
                proof {
                    let m0 = old(self)@;
                    assert(m0.unpublished.contains_key(id));
                    assert(old(self).unpublished@[id] == post);
                    assert(m0.unpublished[id] == post@);
                    assert(post@.id == id);
                }
                let published = post.publish_at(date);
                let summary = PostSummary::from(&published);
                self.published.insert(id, published);
                self.summaries.push(summary);
                proof {
                    let m0 = old(self)@;
                    let m1 = self@;
                    let target = spec_publish(m0, id, date);
                    assert(m1.unpublished =~= target.unpublished);
                    assert(m1.published =~= target.published);
                    assert(m1.summaries =~= target.summaries);
                    assert(m1 =~= target);
                    lemma_publish_preserves_inv(m0, id, date);
                }
                true
            },
        }
    }

    /// Publishes the draft with the given id, stamping it with the current
    /// time. Returns `false` — and changes nothing — when no draft has
    /// that id.
    pub fn publish(&mut self, id: u128) -> (r: bool)
        requires
            old(self).wf(),
        ensures
            final(self).wf(),
            r == old(self)@.unpublished.contains_key(id),
            r ==> exists|date: i64| final(self)@ == #[trigger] spec_publish(old(self)@, id, date),
            !r ==> final(self)@ == old(self)@,
    {
        let date = crate::clock::now_millis();
        self.publish_at(id, date)
    }

    /// The position of the summary for the given id.
    fn find_summary(&self, id: u128) -> (idx: usize)
        requires
            self.wf(),
            has_summary_for(self@.summaries, id),
        ensures
            0 <= idx < self@.summaries.len(),
            self@.summaries[idx as int].id == id,
            idx as int == summary_index(self@.summaries, id),
    {
        let n = self.summaries.len();
        let mut i: usize = 0;
        while i < n
            invariant
                self.wf(),
                has_summary_for(self@.summaries, id),
                n == self@.summaries.len(),
                0 <= i <= n,
                forall|j: int| 0 <= j < i ==> self@.summaries[j].id != id,
            decreases n - i,
        {
            if self.summaries[i].id() == id {
                proof {
                    let c = summary_index(self@.summaries, id);
                    assert(0 <= c < self@.summaries.len() && self@.summaries[c].id == id);
                }
                return i;
            }
            i += 1;
        }
        proof {
            let w = choose|k: int| 0 <= k < self@.summaries.len() && #[trigger] self@.summaries[k].id == id;
            assert(false);
        }
        0
    }

    /// Edits the post with the given id — draft or published — replacing
    /// its title and body in place and returning a copy of the result.
    /// Drafts are checked first. The id (and, for published posts, the
    /// publication date) is preserved; the summary of a published post is
    /// refreshed so listings stay in step. Returns `None` — and changes
    /// nothing — when the id is unknown to both maps.
    pub fn update(&mut self, id: u128, title: String, body: String) -> (r: Option<BlogPost>)
        requires
            old(self).wf(),
        ensures
            final(self).wf(),
            r is Some <==> (old(self)@.unpublished.contains_key(id)
                || old(self)@.published.contains_key(id)),
            old(self)@.unpublished.contains_key(id) ==> {
                &&& final(self)@ == spec_update_draft(old(self)@, id, title@, body@)
                &&& (r matches Some(bp) && bp@ == BlogPostModel::InProgress(
                    PostModel { id, title: title@, body: body@ },
                ))
            },
            !old(self)@.unpublished.contains_key(id) && old(self)@.published.contains_key(id)
                ==> {
                &&& final(self)@ == spec_update_published(old(self)@, id, title@, body@)
                &&& (r matches Some(bp) && bp@ == BlogPostModel::Finished(
                    PublishedModel {
                        id,
                        date: old(self)@.published[id].date,
                        title: title@,
                        body: body@,
                    },
                ))
            },
            r is None ==> final(self)@ == old(self)@,
    {
        match self.unpublished.remove(&id) {
            Some(mut post) => {
                proof {
                    assert(old(self)@.unpublished.contains_key(id));
                    assert(old(self).unpublished@[id] == post);
                    assert(old(self)@.unpublished[id] == post@);
                    assert(post@.id == id);
                }
                post.update(title, body);
                let copy = post.clone();
                self.unpublished.insert(id, post);
                proof {
                    let m0 = old(self)@;
                    let m1 = self@;
                    let target = spec_update_draft(m0, id, title@, body@);
                    assert(m1.unpublished =~= target.unpublished);
                    assert(m1 =~= target);
                    lemma_update_draft_preserves_inv(m0, id, title@, body@);
                }
                Some(BlogPost::InProgress(copy))
            },
            None => {
                proof {
                    assert(self@.unpublished =~= old(self)@.unpublished);
                    assert(self@ =~= old(self)@);
                }
                if self.published.contains_key(&id) {
                    proof {
                        assert(self.published@.contains_key(id));
                        assert(self@.published.contains_key(id));
                        assert(has_summary_for(self@.summaries, id));
                    }
                    let idx = self.find_summary(id);
                    let mut post = match self.published.remove(&id) {
                        Some(p) => p,
                        None => {
                            proof {
                                assert(false);
                            }
                            vstd::pervasive::unreached()
                        },
                    };
                    proof {
                        assert(old(self)@.published.contains_key(id));
                        assert(old(self).published@[id] == post);
                        assert(old(self)@.published[id] == post@);
                        assert(post@.id == id);
                    }
                    post.update(title, body);
                    let summary = PostSummary::from(&post);
                    self.summaries.set(idx, summary);
                    let copy = post.clone();
                    self.published.insert(id, post);
                    proof {
                        let m0 = old(self)@;
                        let m1 = self@;
                        let target = spec_update_published(m0, id, title@, body@);
                        assert(m1.published =~= target.published);
                        assert(m1.summaries =~= target.summaries);
                        assert(m1.unpublished =~= target.unpublished);
                        assert(m1 =~= target);
                        lemma_update_published_preserves_inv(m0, id, title@, body@);
                    }
                    Some(BlogPost::Finished(copy))
                } else {
                    None
                }
            },
        }
    }

    /// One page of the summary listing, newest first: skips
    /// `page_no * page_size` entries from the newest end and returns at
    /// most `page_size` of the rest, together with the query. Out-of-range
    /// pages yield an empty page, not an error.
    pub fn get_pager(&self, query: PagerQuery) -> (r: SummaryPager)
        requires
            self.wf(),
        ensures
            r.query == query,
            summaries_model(r.summaries@) == spec_page(
                self@.summaries,
                query.page_size as nat,
                query.page_no as nat,
            ),
    {
        let mut out: Vec<PostSummary> = Vec::new();
        let n = self.summaries.len();
        let ghost target = spec_page(self@.summaries, query.page_size as nat, query.page_no as nat);
        match query.page_no.checked_mul(query.page_size as usize) {
            None => {
                proof {
                    assert(summaries_model(out@) =~= target);
                }
                SummaryPager { query, summaries: out }
            },
            Some(skip) => {
                if skip >= n {
                    proof {
                        assert(summaries_model(out@) =~= target);
                    }
                    SummaryPager { query, summaries: out }
                } else {
                    let count = if (query.page_size as usize) <= n - skip {
                        query.page_size as usize
                    } else {
                        n - skip
                    };
                    let mut k: usize = 0;
                    while k < count
                        invariant
                            self.wf(),
                            n == self@.summaries.len(),
                            skip == query.page_no as nat * query.page_size as nat,
                            skip < n,
                            count <= n - skip,
                            count == if (query.page_size as int) <= n - skip {
                                query.page_size as int
                            } else {
                                n - skip
                            },
                            0 <= k <= count,
                            out@.len() == k,
                            forall|m: int|
                                0 <= m < k ==> (#[trigger] out@[m])@ == self@.summaries[n - 1 - skip
                                    - m],
                        decreases count - k,
                    {
                        let s = self.summaries[n - 1 - skip - k].clone();
                        out.push(s);
                        k += 1;
                    }
                    proof {
                        assert(summaries_model(out@) =~= target);
                    }
                    SummaryPager { query, summaries: out }
                }
            },
        }
    }

    /// Adds one published record during bootstrap, splicing its summary
    /// into the date-ordered summary list.
    fn insert_published_record(&mut self, post: PublishedPost)
        requires
            old(self).wf(),
            sorted_by_date(old(self)@.summaries),
            !old(self)@.published.contains_key(post@.id),
            !old(self)@.unpublished.contains_key(post@.id),
        ensures
            final(self).wf(),
            sorted_by_date(final(self)@.summaries),
            final(self)@.published == old(self)@.published.insert(post@.id, post@),
            final(self)@.unpublished == old(self)@.unpublished,
    {
        let ghost m0 = self@;
        let date = post.published_date();
        let summary = PostSummary::from(&post);
        let id = post.id();
        let n = self.summaries.len();
        let mut idx: usize = 0;
        while idx < n
            invariant_except_break
                self@ == m0,
                n == self@.summaries.len(),
                0 <= idx <= n,
                forall|j: int| 0 <= j < idx ==> (#[trigger] m0.summaries[j].date) <= date,
            ensures
                self@ == m0,
                n == m0.summaries.len(),
                0 <= idx <= n,
                forall|j: int| 0 <= j < idx ==> (#[trigger] m0.summaries[j].date) <= date,
                idx < n ==> m0.summaries[idx as int].date > date,
            decreases n - idx,
        {
            if self.summaries[idx].published_date() > date {
                break;
            }
            idx += 1;
        }
        self.summaries.insert(idx, summary);
        self.published.insert(id, post);
        proof {
            let m1 = self@;
            let s = SummaryModel { id: post@.id, title: post@.title, date: post@.date };
            assert(m1.summaries =~= m0.summaries.insert(idx as int, s));
            assert(m1.published =~= m0.published.insert(post@.id, post@));
            assert(m1.unpublished =~= m0.unpublished);
            lemma_insert_record_preserves_inv(m0, idx as int, post@);
            assert(inv(m1));
            assert forall|i: int, j: int|
                #![trigger m1.summaries[i].date, m1.summaries[j].date]
                0 <= i <= j < m1.summaries.len() implies m1.summaries[i].date
                <= m1.summaries[j].date by {
                if i < idx {
                    assert(m1.summaries[i] == m0.summaries[i]);
                } else if i == idx {
                    assert(m1.summaries[i] == s);
                } else {
                    assert(m1.summaries[i] == m0.summaries[i - 1]);
                }
                if j < idx {
                    assert(m1.summaries[j] == m0.summaries[j]);
                } else if j == idx {
                    assert(m1.summaries[j] == s);
                } else {
                    assert(m1.summaries[j] == m0.summaries[j - 1]);
                    assert(m0.summaries[idx as int].date > date);
                    assert(m0.summaries[idx as int].date <= m0.summaries[j - 1].date);
                }
            }
        }
    }

    /// Rebuilds a cache from the records read out of the persistent store
    /// at startup: one entry per id in each map (the first record with an
    /// id wins, and a draft whose id is already published is dropped, so
    /// the exclusivity invariant holds), and the summary list derived from
    /// the published records in date order, oldest first.
    pub fn bootstrap(published: Vec<PublishedPost>, unpublished: Vec<UnpublishedPost>) -> (r:
        Cache)
        ensures
            r.wf(),
            sorted_by_date(r@.summaries),
            r@.published == published_map_of(published@.map_values(|p: PublishedPost| p@)),
            r@.unpublished == draft_map_of(
                unpublished@.map_values(|p: UnpublishedPost| p@),
                r@.published,
            ),
    {
        let ghost pub_records = published@.map_values(|p: PublishedPost| p@);
        let ghost draft_records = unpublished@.map_values(|p: UnpublishedPost| p@);
        let mut cache = Cache::new();
        let mut i: usize = 0;
        while i < published.len()
            invariant
                cache.wf(),
                sorted_by_date(cache@.summaries),
                pub_records == published@.map_values(|p: PublishedPost| p@),
                0 <= i <= published.len(),
                pub_records.len() == published.len(),
                cache@.published == published_map_of(pub_records.take(i as int)),
                cache@.unpublished == Map::<u128, PostModel>::empty(),
            decreases published.len() - i,
        {
            let post = published[i].clone();
            proof {
                assert(pub_records.take(i + 1).drop_last() =~= pub_records.take(i as int));
                assert(pub_records.take(i + 1).last() == post@);
            }
            let pid = post.id();
            if !cache.published.contains_key(&pid) {
                proof {
                    assert(cache.published@.contains_key(post@.id) == false);
                    assert(!cache@.published.contains_key(post@.id));
                }
                cache.insert_published_record(post);
            } else {
                proof {
                    assert(cache@.published.contains_key(post@.id));
                }
            }
            i += 1;
        }
        proof {
            assert(pub_records.take(published.len() as int) =~= pub_records);
        }
        let ghost final_published = cache@.published;
        let mut j: usize = 0;
        while j < unpublished.len()
            invariant
                cache.wf(),
                sorted_by_date(cache@.summaries),
                draft_records == unpublished@.map_values(|p: UnpublishedPost| p@),
                0 <= j <= unpublished.len(),
                draft_records.len() == unpublished.len(),
                cache@.published == final_published,
                cache@.unpublished == draft_map_of(draft_records.take(j as int), final_published),
            decreases unpublished.len() - j,
        {
            let post = unpublished[j].clone();
            proof {
                assert(draft_records.take(j + 1).drop_last() =~= draft_records.take(j as int));
                assert(draft_records.take(j + 1).last() == post@);
            }
            let known = cache.published.contains_key(&post.id) || cache.unpublished.contains_key(
                &post.id,
            );
            if !known {
                proof {
                    assert(!cache@.published.contains_key(post@.id));
                    assert(!cache@.unpublished.contains_key(post@.id));
                }
                cache.create_with_id(post.id, post.title, post.body);
            } else {
                proof {
                    assert(cache@.published.contains_key(post@.id)
                        || cache@.unpublished.contains_key(post@.id));
                }
            }
            j += 1;
        }
        proof {
            assert(draft_records.take(unpublished.len() as int) =~= draft_records);
        }
        cache
    }
}

/// Splicing a fresh published record and its summary into the cache at any
/// summary position preserves the class invariant.
proof fn lemma_insert_record_preserves_inv(m: CacheModel, idx: int, p: PublishedModel)
    requires
        inv(m),
        0 <= idx <= m.summaries.len(),
        !m.published.contains_key(p.id),
        !m.unpublished.contains_key(p.id),
    ensures
        inv(
            CacheModel {
                summaries: m.summaries.insert(
                    idx,
                    SummaryModel { id: p.id, title: p.title, date: p.date },
                ),
                published: m.published.insert(p.id, p),
                unpublished: m.unpublished,
            },
        ),
{
    let s = SummaryModel { id: p.id, title: p.title, date: p.date };
    let m1 = CacheModel {
        summaries: m.summaries.insert(idx, s),
        published: m.published.insert(p.id, p),
        unpublished: m.unpublished,
    };
    assert forall|i: int| 0 <= i < m1.summaries.len() implies summary_matches(
        m1,
        #[trigger] m1.summaries[i],
    ) by {
        if i < idx {
            assert(m1.summaries[i] == m.summaries[i]);
            assert(summary_matches(m, m.summaries[i]));
        } else if i == idx {
            assert(m1.summaries[i] == s);
        } else {
            assert(m1.summaries[i] == m.summaries[i - 1]);
            assert(summary_matches(m, m.summaries[i - 1]));
        }
    }
    assert forall|i: int, j: int|
        #![trigger m1.summaries[i].id, m1.summaries[j].id]
        0 <= i < m1.summaries.len() && 0 <= j < m1.summaries.len() && i
            != j implies m1.summaries[i].id != m1.summaries[j].id by {
        let a = if i < idx {
            m.summaries[i]
        } else if i == idx {
            s
        } else {
            m.summaries[i - 1]
        };
        let b = if j < idx {
            m.summaries[j]
        } else if j == idx {
            s
        } else {
            m.summaries[j - 1]
        };
        assert(m1.summaries[i] == a);
        assert(m1.summaries[j] == b);
        if i != idx && j != idx {
            let i0 = if i < idx {
                i
            } else {
                i - 1
            };
            let j0 = if j < idx {
                j
            } else {
                j - 1
            };
            assert(m.summaries[i0].id != m.summaries[j0].id);
        } else if i == idx {
            assert(summary_matches(m, b));
        } else {
            assert(summary_matches(m, a));
        }
    }
    assert forall|key: u128| #[trigger]
        m1.published.contains_key(key) implies has_summary_for(m1.summaries, key) by {
        if key == p.id {
            assert(m1.summaries[idx].id == key);
        } else {
            assert(m.published.contains_key(key));
            let w = choose|i: int|
                0 <= i < m.summaries.len() && #[trigger] m.summaries[i].id == key;
            if w < idx {
                assert(m1.summaries[w].id == key);
            } else {
                assert(m1.summaries[w + 1].id == key);
            }
        }
    }
}

/// Publishing a draft preserves the class invariant.
proof fn lemma_publish_preserves_inv(m: CacheModel, id: u128, date: i64)
    requires
        inv(m),
        m.unpublished.contains_key(id),
    ensures
        inv(spec_publish(m, id, date)),
{
    let m1 = spec_publish(m, id, date);
    assert forall|i: int| 0 <= i < m1.summaries.len() implies summary_matches(
        m1,
        #[trigger] m1.summaries[i],
    ) by {
        if i < m.summaries.len() {
            assert(summary_matches(m, m.summaries[i]));
            assert(m.summaries[i].id != id);
        }
    }
    assert forall|key: u128| #[trigger]
        m1.published.contains_key(key) implies has_summary_for(m1.summaries, key) by {
        if key == id {
            assert(m1.summaries[m.summaries.len() as int].id == id);
        } else {
            assert(m.published.contains_key(key));
            let w = choose|i: int|
                0 <= i < m.summaries.len() && #[trigger] m.summaries[i].id == key;
            assert(m1.summaries[w].id == key);
        }
    }
}

/// Editing a draft preserves the class invariant.
proof fn lemma_update_draft_preserves_inv(m: CacheModel, id: u128, title: Seq<char>, body: Seq<char>)
    requires
        inv(m),
        m.unpublished.contains_key(id),
    ensures
        inv(spec_update_draft(m, id, title, body)),
{
    let m1 = spec_update_draft(m, id, title, body);
    assert forall|i: int| 0 <= i < m1.summaries.len() implies summary_matches(
        m1,
        #[trigger] m1.summaries[i],
    ) by {
        assert(summary_matches(m, m.summaries[i]));
    }
    assert forall|key: u128| #[trigger]
        m1.published.contains_key(key) implies has_summary_for(m1.summaries, key) by {
        assert(m.published.contains_key(key));
    }
}

/// Editing a published post preserves the class invariant.
proof fn lemma_update_published_preserves_inv(
    m: CacheModel,
    id: u128,
    title: Seq<char>,
    body: Seq<char>,
)
    requires
        inv(m),
        m.published.contains_key(id),
    ensures
        inv(spec_update_published(m, id, title, body)),
{
    let m1 = spec_update_published(m, id, title, body);
    let idx = summary_index(m.summaries, id);
    assert(has_summary_for(m.summaries, id));
    assert(0 <= idx < m.summaries.len() && m.summaries[idx].id == id);
    assert forall|i: int| 0 <= i < m1.summaries.len() implies summary_matches(
        m1,
        #[trigger] m1.summaries[i],
    ) by {
        assert(summary_matches(m, m.summaries[i]));
        if i != idx {
            assert(m1.summaries[i] == m.summaries[i]);
            assert(m.summaries[i].id != id);
        }
    }
    assert forall|key: u128| #[trigger]
        m1.published.contains_key(key) implies has_summary_for(m1.summaries, key) by {
        if key == id {
            assert(m1.summaries[idx].id == id);
        } else {
            assert(m.published.contains_key(key));
            let w = choose|i: int|
                0 <= i < m.summaries.len() && #[trigger] m.summaries[i].id == key;
            assert(m1.summaries[w].id == key);
        }
    }
}

} // verus!
