//! Content cache and consistency layer for a blog-publishing backend.
//!
//! The heart of the crate is an in-memory [`cache::Cache`] of blog-post
//! content that is owned and mutated by a single worker. Callers reach it
//! through a message-passing handle (the channel plumbing lives outside this
//! library); the worker drains commands in arrival order, applies each one
//! synchronously, and hands back the persistence work that a store client
//! should perform out of band.
//!
//! The remaining modules hold the small, pure utilities of the wider
//! service: the Gruvbox palette, the parsed-markdown data model, route
//! templates, and scroll/viewport arithmetic.

use vstd::prelude::*;

pub mod api;
pub mod blog;
pub mod cache;
pub mod clock;
pub mod content;
pub mod ident;
pub mod laws;
pub mod markdown;
pub mod rss;
pub mod palette;
pub mod term;
pub mod text;
pub mod worker;
