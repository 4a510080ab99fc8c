//! The worker: the single task that owns the cache.
//!
//! A [`Command`] is one request message of the closed set the service
//! understands; the reply channel that accompanies each command in the
//! running system is outside this library, which is why the types here are
//! plain data. The worker applies commands strictly one at a time, in the
//! order they are handed to [`Worker::handle_command`] — the queue in front
//! of it is drained in FIFO order, so a command sequence issued through one
//! handle is applied in send order. Each call mutates the cache
//! synchronously, produces the reply to send back, and hands out the
//! [`StoreOp`]s that a detached task should persist out of band. The
//! persistence work is fire-and-forget: its outcome never reaches the
//! cache or the caller, so the in-memory state this module computes is
//! authoritative for every later read.

use vstd::prelude::*;

use crate::blog::{
    BlogPost, BlogPostModel, PagerQuery, PostModel, PublishedModel, PublishedPost, SummaryPager,
    UnpublishedPost,
};
use crate::cache::{
    spec_create, spec_get, spec_page, spec_publish, spec_update_draft, spec_update_published,
    summaries_model, Cache, CacheModel,
};

verus! {

/// One request message: the operation and its arguments.
#[derive(Debug)]
pub enum Command {
    Get { id: u128 },
    Create { title: String, body: String },
    Update { id: u128, title: String, body: String },
    Publish { id: u128 },
    GetPager { query: PagerQuery },
}

/// The reply the worker sends back for each kind of command.
#[derive(Debug)]
pub enum Reply {
    Post(Option<BlogPost>),
    Created(Option<UnpublishedPost>),
    Updated(Option<BlogPost>),
    Published(bool),
    Pager(SummaryPager),
}

/// One write that a detached task should persist to the document store.
#[derive(Debug)]
pub enum StoreOp {
    UpsertUnpublished(UnpublishedPost),
    UpsertPublished(PublishedPost),
    DeleteUnpublished(u128),
}

/// The worker state: exclusive ownership of the cache.
pub struct Worker {
    cache: Cache,
}

impl View for Worker {
    type V = CacheModel;

    closed spec fn view(&self) -> CacheModel {
        self.cache@
    }
}

impl Worker {
    /// The worker's invariant: its cache is well formed.
    pub closed spec fn wf(&self) -> bool {
        self.cache.wf()
    }

    /// A worker over a freshly rebuilt cache; see [`Cache::bootstrap`].
    pub fn bootstrap(published: Vec<PublishedPost>, unpublished: Vec<UnpublishedPost>) -> (w:
        Worker)
        ensures
            w.wf(),
            crate::cache::sorted_by_date(w@.summaries),
            w@.published == crate::cache::published_map_of(
                published@.map_values(|p: PublishedPost| p@),
            ),
            w@.unpublished == crate::cache::draft_map_of(
                unpublished@.map_values(|p: UnpublishedPost| p@),
                w@.published,
            ),
    {
        Worker { cache: Cache::bootstrap(published, unpublished) }
    }

    /// Applies one command to the cache, synchronously, and returns the
    /// reply to send together with the persistence work to hand to a
    /// detached task. Reads change nothing and persist nothing; a create
    /// or update persists the post it touched; a publish deletes the
    /// draft record and upserts the finished post.
    pub fn handle_command(&mut self, cmd: Command) -> (r: (Reply, Vec<StoreOp>))
        requires
            old(self).wf(),
        ensures
            final(self).wf(),
            match cmd {
                Command::Get { id } => {
                    &&& final(self)@ == old(self)@
                    &&& r.1@.len() == 0
                    &&& (r.0 matches Reply::Post(p) && (match p {
                        Some(bp) => spec_get(old(self)@, id) == Some(bp@),
                        None => spec_get(old(self)@, id) is None,
                    }))
                },
                Command::Create { title, body } => r.0 matches Reply::Created(opt) && (match opt {
                    Some(post) => {
                        &&& post@.title == title@
                        &&& post@.body == body@
                        &&& !old(self)@.published.contains_key(post@.id)
                        &&& !old(self)@.unpublished.contains_key(post@.id)
                        &&& final(self)@ == spec_create(old(self)@, post@.id, title@, body@)
                        &&& r.1@.len() == 1
                        &&& (r.1@[0] matches StoreOp::UpsertUnpublished(p) && p@ == post@)
                    },
                    None => final(self)@ == old(self)@ && r.1@.len() == 0,
                }),
                Command::Update { id, title, body } => {
                    &&& (r.0 matches Reply::Updated(opt) && (match opt {
                        Some(bp) => match bp@ {
                            BlogPostModel::InProgress(q) => {
                                &&& old(self)@.unpublished.contains_key(id)
                                &&& q == (PostModel { id, title: title@, body: body@ })
                                &&& final(self)@ == spec_update_draft(
                                    old(self)@,
                                    id,
                                    title@,
                                    body@,
                                )
                                &&& r.1@.len() == 1
                                &&& (r.1@[0] matches StoreOp::UpsertUnpublished(p) && p@ == q)
                            },
                            BlogPostModel::Finished(q) => {
                                &&& !old(self)@.unpublished.contains_key(id)
                                &&& old(self)@.published.contains_key(id)
                                &&& q == (PublishedModel {
                                    id,
                                    date: old(self)@.published[id].date,
                                    title: title@,
                                    body: body@,
                                })
                                &&& final(self)@ == spec_update_published(
                                    old(self)@,
                                    id,
                                    title@,
                                    body@,
                                )
                                &&& r.1@.len() == 1
                                &&& (r.1@[0] matches StoreOp::UpsertPublished(p) && p@ == q)
                            },
                        },
                        None => {
                            &&& !old(self)@.unpublished.contains_key(id)
                            &&& !old(self)@.published.contains_key(id)
                            &&& final(self)@ == old(self)@
                            &&& r.1@.len() == 0
                        },
                    }))
                },
                Command::Publish { id } => {
                    &&& (r.0 matches Reply::Published(done)
                        && done == old(self)@.unpublished.contains_key(id))
                    &&& (old(self)@.unpublished.contains_key(id) ==> {
                        &&& exists|date: i64|
                            final(self)@ == #[trigger] spec_publish(old(self)@, id, date)
                        &&& r.1@.len() == 2
                        &&& r.1@[0] matches StoreOp::DeleteUnpublished(d) && d == id
                        &&& (r.1@[1] matches StoreOp::UpsertPublished(p)
                            && p@ == final(self)@.published[id])
                    })
                    &&& (!old(self)@.unpublished.contains_key(id) ==> final(self)@ == old(self)@
                        && r.1@.len() == 0)
                },
                Command::GetPager { query } => {
                    &&& final(self)@ == old(self)@
                    &&& r.1@.len() == 0
                    &&& (r.0 matches Reply::Pager(pager) && pager.query == query
                        && summaries_model(pager.summaries@) == spec_page(
                        old(self)@.summaries,
                        query.page_size as nat,
                        query.page_no as nat,
                    ))
                },
            },
    {
        let mut ops: Vec<StoreOp> = Vec::new();
        match cmd {
            Command::Get { id } => {
                let reply = self.cache.get(id);
                (Reply::Post(reply), ops)
            },
            Command::Create { title, body } => {
                let created = self.cache.create(title, body);
                match created {
                    Some(post) => {
                        ops.push(StoreOp::UpsertUnpublished(post.clone()));
                        (Reply::Created(Some(post)), ops)
                    },
                    None => (Reply::Created(None), ops),
                }
            },
            Command::Update { id, title, body } => {
                let updated = self.cache.update(id, title, body);
                match updated {
                    Some(BlogPost::InProgress(post)) => {
                        ops.push(StoreOp::UpsertUnpublished(post.clone()));
                        (Reply::Updated(Some(BlogPost::InProgress(post))), ops)
                    },
                    Some(BlogPost::Finished(post)) => {
                        ops.push(StoreOp::UpsertPublished(post.clone()));
                        (Reply::Updated(Some(BlogPost::Finished(post))), ops)
                    },
                    None => (Reply::Updated(None), ops),
                }
            },
            Command::Publish { id } => {
                let done = self.cache.publish(id);
                if done {
                    proof {
                        let d = choose|date: i64|
                            self.cache@ == #[trigger] spec_publish(old(self).cache@, id, date);
                        assert(self.cache@.published.contains_key(id));
                    }
                    ops.push(StoreOp::DeleteUnpublished(id));
                    match self.cache.get(id) {
                        Some(BlogPost::Finished(post)) => {
                            ops.push(StoreOp::UpsertPublished(post));
                        },
                        _ => {
                            proof {
                                assert(false);
                            }
                        },
                    }
                    (Reply::Published(true), ops)
                } else {
                    (Reply::Published(false), ops)
                }
            },
            Command::GetPager { query } => {
                let pager = self.cache.get_pager(query);
                (Reply::Pager(pager), ops)
            },
        }
    }
}

} // verus!
