//! The document backend: users embed their settings and session codes; posts
//! and likes are collections of their own.
use vstd::prelude::*;

pub mod laws;
pub mod like;
pub mod post;
pub mod session;
pub mod store;
pub mod user;

verus! {

} // verus!
