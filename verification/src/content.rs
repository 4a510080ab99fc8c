//! Request payloads for creating and updating site content.

use vstd::prelude::*;

use crate::markdown::Markdown;

verus! {

/// Everything the backend needs to create a blog post.
#[derive(Debug, Clone, PartialEq, Eq)]
pub struct CreatePost {
    pub title: String,
    pub summary: String,
    pub body: String,
}

/// Everything the backend needs to create a project page.
#[derive(Debug, Clone, PartialEq, Eq)]
pub struct CreateProject {
    pub name: String,
    pub summary: String,
    pub body: String,
}

/// Everything needed to update the home page.
#[derive(Debug, Clone, PartialEq, Eq)]
pub struct UpdateHome {
    pub body: String,
}

/// The pre-parsed markdown displayed on the home page.
#[derive(Debug, PartialEq, Eq)]
pub struct HomePage {
    pub body: Markdown,
}

} // verus!
