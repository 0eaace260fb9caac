//! A persistence layer for a small content platform: users, posts, likes and
//! login sessions, with a viewer-relative read model of posts.
use vstd::prelude::*;

pub mod auth;
pub mod error;
pub mod ids;
pub mod models;
pub mod repository;

verus! {

} // verus!
