//! Blog-post data model: draft and published posts, summaries, and the
//! pager query used for paginated listings.
//!
//! Each executable type has a ghost model over mathematical values
//! (`Seq<char>` for text); every contract in the crate speaks of those
//! models.

use vstd::prelude::*;

verus! {

/// Ghost model of a draft post.
pub ghost struct PostModel {
    pub id: u128,
    pub title: Seq<char>,
    pub body: Seq<char>,
}

/// Ghost model of a published post.
pub ghost struct PublishedModel {
    pub id: u128,
    pub date: i64,
    pub title: Seq<char>,
    pub body: Seq<char>,
}

/// Ghost model of a post summary.
pub ghost struct SummaryModel {
    pub id: u128,
    pub title: Seq<char>,
    pub date: i64,
}

/// Ghost model of a blog post as handed to readers.
pub ghost enum BlogPostModel {
    InProgress(PostModel),
    Finished(PublishedModel),
}

/// A draft blog post: not yet visible in public listings.
#[derive(Debug)]
pub struct UnpublishedPost {
    pub id: u128,
    pub title: String,
    pub body: String,
}

/// A published blog post. The id and publication date are immutable;
/// title and body may still be edited.
#[derive(Debug)]
pub struct PublishedPost {
    pub id: u128,
    published_date: i64,
    title: String,
    body: String,
}

/// A lightweight projection of a published post, used only for listings.
#[derive(Debug)]
pub struct PostSummary {
    id: u128,
    title: String,
    published_date: i64,
}

/// A blog post as returned by lookups: either still in progress or finished.
#[derive(Debug)]
pub enum BlogPost {
    InProgress(UnpublishedPost),
    Finished(PublishedPost),
}

/// The query accepted by the summary pager.
#[derive(Debug, Clone, Copy, PartialEq, Eq, Structural)]
pub struct PagerQuery {
    pub page_size: u8,
    pub page_no: usize,
}

/// One bounded page of summaries, returned together with the query that
/// produced it.
#[derive(Debug)]
pub struct SummaryPager {
    pub query: PagerQuery,
    pub summaries: Vec<PostSummary>,
}

impl View for UnpublishedPost {
    type V = PostModel;

    open spec fn view(&self) -> PostModel {
        PostModel { id: self.id, title: self.title@, body: self.body@ }
    }
}

impl View for PublishedPost {
    type V = PublishedModel;

    closed spec fn view(&self) -> PublishedModel {
        PublishedModel {
            id: self.id,
            date: self.published_date,
            title: self.title@,
            body: self.body@,
        }
    }
}

impl View for PostSummary {
    type V = SummaryModel;

    closed spec fn view(&self) -> SummaryModel {
        SummaryModel { id: self.id, title: self.title@, date: self.published_date }
    }
}

impl View for BlogPost {
    type V = BlogPostModel;

    open spec fn view(&self) -> BlogPostModel {
        match self {
            BlogPost::InProgress(post) => BlogPostModel::InProgress(post@),
            BlogPost::Finished(post) => BlogPostModel::Finished(post@),
        }
    }
}

impl Clone for UnpublishedPost {
    /// Deep copy; the model is preserved.
    fn clone(&self) -> (r: Self)
        ensures
            r@ == self@,
    {
        UnpublishedPost { id: self.id, title: self.title.clone(), body: self.body.clone() }
    }
}

impl Clone for PublishedPost {
    /// Deep copy; the model is preserved.
    fn clone(&self) -> (r: Self)
        ensures
            r@ == self@,
    {
        PublishedPost {
            id: self.id,
            published_date: self.published_date,
            title: self.title.clone(),
            body: self.body.clone(),
        }
    }
}

impl Clone for PostSummary {
    /// Deep copy; the model is preserved.
    fn clone(&self) -> (r: Self)
        ensures
            r@ == self@,
    {
        PostSummary {
            id: self.id,
            title: self.title.clone(),
            published_date: self.published_date,
        }
    }
}

impl UnpublishedPost {
    /// Builds a draft post from its parts.
    pub fn new(id: u128, title: String, body: String) -> (r: Self)
        ensures
            r@ == (PostModel { id, title: title@, body: body@ }),
    {
        UnpublishedPost { id, title, body }
    }

    /// Replaces the title and body, leaving the id alone.
    pub fn update(&mut self, title: String, body: String)
        ensures
            final(self)@ == (PostModel { id: old(self)@.id, title: title@, body: body@ }),
    {
        self.title = title;
        self.body = body;
    }

    /// Turns this draft into a published post stamped with the given date.
    pub fn publish_at(self, date: i64) -> (r: PublishedPost)
        ensures
            r@ == (PublishedModel {
                id: self@.id,
                date,
                title: self@.title,
                body: self@.body,
            }),
    {
        let UnpublishedPost { id, title, body } = self;
        PublishedPost { id, title, body, published_date: date }
    }

    /// Turns this draft into a published post stamped with the current time.
    pub fn publish(self) -> (r: PublishedPost)
        ensures
            r@.id == self@.id,
            r@.title == self@.title,
            r@.body == self@.body,
    {
        let date = crate::clock::now_millis();
        self.publish_at(date)
    }
}

impl PublishedPost {
    /// Replaces the title and body; the id and publication date are kept.
    pub fn update(&mut self, title: String, body: String)
        ensures
            final(self)@ == (PublishedModel {
                id: old(self)@.id,
                date: old(self)@.date,
                title: title@,
                body: body@,
            }),
    {
        self.title = title;
        self.body = body;
    }

    /// The title of the post.
    pub fn title(&self) -> (r: &str)
        ensures
            r@ == self@.title,
    {
        self.title.as_str()
    }

    /// The body of the post.
    pub fn body(&self) -> (r: &str)
        ensures
            r@ == self@.body,
    {
        self.body.as_str()
    }

    /// The date the post was published, in milliseconds since the epoch.
    pub fn published_date(&self) -> (r: i64)
        ensures
            r == self@.date,
    {
        self.published_date
    }

    /// The id of the post.
    pub fn id(&self) -> (r: u128)
        ensures
            r == self@.id,
    {
        self.id
    }

    /// Rebuilds a published post from its parts, as read back from the
    /// persistent store.
    pub fn from_record(id: u128, date: i64, title: String, body: String) -> (r: Self)
        ensures
            r@ == (PublishedModel { id, date, title: title@, body: body@ }),
    {
        PublishedPost { id, published_date: date, title, body }
    }
}

impl BlogPost {
    /// Replaces the title and body of either variant in place.
    pub fn update(&mut self, title: String, body: String)
        ensures
            match (old(self)@, final(self)@) {
                (BlogPostModel::InProgress(p), BlogPostModel::InProgress(q)) => q
                    == (PostModel { id: p.id, title: title@, body: body@ }),
                (BlogPostModel::Finished(p), BlogPostModel::Finished(q)) => q
                    == (PublishedModel { id: p.id, date: p.date, title: title@, body: body@ }),
                _ => false,
            },
    {
        match self {
            BlogPost::InProgress(post) => post.update(title, body),
            BlogPost::Finished(post) => post.update(title, body),
        }
    }
}

impl PostSummary {
    /// The summary of a published post: its id, title, and date.
    pub fn from(post: &PublishedPost) -> (r: Self)
        ensures
            r@ == (SummaryModel { id: post@.id, title: post@.title, date: post@.date }),
    {
        PostSummary {
            id: post.id,
            title: post.title.clone(),
            published_date: post.published_date(),
        }
    }

    /// The id of the summarised post.
    pub fn id(&self) -> (r: u128)
        ensures
            r == self@.id,
    {
        self.id
    }

    /// The title of the summarised post.
    pub fn title(&self) -> (r: &str)
        ensures
            r@ == self@.title,
    {
        self.title.as_str()
    }

    /// The date the summarised post was published.
    pub fn published_date(&self) -> (r: i64)
        ensures
            r == self@.date,
    {
        self.published_date
    }
}

impl PagerQuery {
    /// Moves the query to the next page, saturating at the largest page.
    pub fn next(&mut self)
        ensures
            final(self).page_size == old(self).page_size,
            final(self).page_no == if old(self).page_no == usize::MAX {
                usize::MAX as int
            } else {
                old(self).page_no + 1
            },
    {
        self.page_no = self.page_no.saturating_add(1);
    }

    /// Moves the query to the previous page, saturating at the first page.
    pub fn prev(&mut self)
        ensures
            final(self).page_size == old(self).page_size,
            final(self).page_no == if old(self).page_no == 0 {
                0int
            } else {
                old(self).page_no - 1
            },
    {
        self.page_no = self.page_no.saturating_sub(1);
    }

    /// Jumps the query to the given page.
    pub fn set_page(&mut self, page_no: usize)
        ensures
            final(self).page_size == old(self).page_size,
            final(self).page_no == page_no,
    {
        self.page_no = page_no;
    }
}

impl Default for PagerQuery {
    /// Twenty summaries per page, starting from the first page.
    fn default() -> (r: Self)
        ensures
            r == (PagerQuery { page_size: 20u8, page_no: 0usize }),
    {
        PagerQuery { page_size: 20, page_no: 0 }
    }
}

} // verus!
